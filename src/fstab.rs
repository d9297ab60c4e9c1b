//! Cleaning up the generated fstab of the installed system.
use crate::text::{push_char, string_of};
use crate::tool::views;
use vstd::prelude::*;

verus! {

/// A line without the `\r` of a `\r\n` ending.
pub open spec fn strip_cr(line: Seq<char>) -> Seq<char> {
    if line.len() > 0 && line.last() == '\r' {
        line.drop_last()
    } else {
        line
    }
}

/// The lines of `rest`, after the lines `done` and the partial line
/// `current`: `\n` ends a line (with its `\r`, if any), and a last line
/// needs no ending.
pub open spec fn split_lines(done: Seq<Seq<char>>, current: Seq<char>, rest: Seq<char>) -> Seq<Seq<char>>
    decreases rest.len(),
{
    if rest.len() == 0 {
        if current.len() == 0 {
            done
        } else {
            done.push(current)
        }
    } else if rest[0] == '\n' {
        split_lines(done.push(strip_cr(current)), Seq::empty(), rest.drop_first())
    } else {
        split_lines(done, current.push(rest[0]), rest.drop_first())
    }
}

/// The lines of `s`, as `str::lines` splits them.
pub open spec fn lines(s: Seq<char>) -> Seq<Seq<char>> {
    split_lines(Seq::empty(), Seq::empty(), s)
}

/// Whether `line` mentions `swap`.
pub open spec fn mentions_swap(line: Seq<char>) -> bool {
    exists|k: int| 0 <= k && k + 4 <= line.len() && #[trigger] line.subrange(k, k + 4) == seq!['s', 'w', 'a', 'p']
}

/// Whether a line stays: it is no swap entry and no comment.
pub open spec fn kept(line: Seq<char>) -> bool {
    !mentions_swap(line) && !(line.len() > 0 && line[0] == '#')
}

/// The lines joined with `\n` between them.
pub open spec fn join_lines(ls: Seq<Seq<char>>) -> Seq<char>
    decreases ls.len(),
{
    if ls.len() == 0 {
        Seq::empty()
    } else if ls.len() == 1 {
        ls[0]
    } else {
        join_lines(ls.drop_last()) + seq!['\n'] + ls.last()
    }
}

/// The fstab without swap entries and comments.
pub open spec fn fixed_fstab(fstab: Seq<char>) -> Seq<char> {
    join_lines(lines(fstab).filter(|l: Seq<char>| kept(l)))
}

fn mentions_swap_exec(line: &str) -> (r: bool)
    ensures
        r == mentions_swap(line@),
{
    let n = line.unicode_len();
    if n < 4 {
        return false;
    }
    let mut k: usize = 0;
    while k <= n - 4
        invariant
            n == line@.len(),
            n >= 4,
            k <= n - 3,
            forall|j: int| 0 <= j < k ==> #[trigger] line@.subrange(j, j + 4) != seq!['s', 'w', 'a', 'p'],
        decreases n - k,
    {
        if line.get_char(k) == 's' && line.get_char(k + 1) == 'w' && line.get_char(k + 2) == 'a'
            && line.get_char(k + 3) == 'p' {
            proof {
                assert(line@.subrange(k as int, k + 4) =~= seq!['s', 'w', 'a', 'p']);
            }
            return true;
        }
        proof {
            let w = line@.subrange(k as int, k + 4);
            if w == seq!['s', 'w', 'a', 'p'] {
                assert(w[0] == line@[k as int] && w[1] == line@[k + 1] && w[2] == line@[k + 2] && w[3] == line@[k + 3]);
            }
        }
        k += 1;
    }
    proof {
        assert forall|j: int| 0 <= j && j + 4 <= line@.len() implies #[trigger] line@.subrange(j, j + 4) != seq!['s', 'w', 'a', 'p'] by {
            assert(j < k);
        }
    }
    false
}

fn strip_cr_exec(line: String) -> (r: String)
    ensures
        r@ == strip_cr(line@),
{
    let n = line.unicode_len();
    if n > 0 && line.get_char(n - 1) == '\r' {
        let kept_part = line.as_str().substring_char(0, n - 1);
        proof {
            assert(kept_part@ =~= line@.drop_last());
        }
        string_of(kept_part)
    } else {
        line
    }
}

fn split_into_lines(s: &str) -> (r: Vec<String>)
    ensures
        views(r@) == lines(s@),
{
    let n = s.unicode_len();
    let mut done: Vec<String> = Vec::new();
    let mut current = String::new();
    let mut i: usize = 0;
    proof {
        assert(s@.subrange(0, n as int) =~= s@);
        assert(views(done@) =~= Seq::<Seq<char>>::empty());
    }
    while i < n
        invariant
            n == s@.len(),
            i <= n,
            split_lines(views(done@), current@, s@.subrange(i as int, n as int)) == lines(s@),
        decreases n - i,
    {
        let c = s.get_char(i);
        let ghost rest = s@.subrange(i as int, n as int);
        proof {
            assert(rest[0] == c);
            assert(rest.drop_first() =~= s@.subrange(i + 1, n as int));
        }
        if c == '\n' {
            let line = strip_cr_exec(current);
            let ghost before = views(done@);
            done.push(line);
            proof {
                assert(views(done@) =~= before.push(line@));
            }
            current = String::new();
        } else {
            push_char(&mut current, c);
        }
        i += 1;
    }
    if current.unicode_len() > 0 {
        let ghost before = views(done@);
        done.push(current);
        proof {
            assert(views(done@) =~= before.push(current@));
        }
    }
    done
}

/// The fstab without swap entries and comments; the lines that stay are
/// joined with `\n`, without a final one.
pub fn fix_fstab(fstab: &str) -> (r: String)
    ensures
        r@ == fixed_fstab(fstab@),
{
    let all = split_into_lines(fstab);
    let ghost ls = views(all@);
    let ghost keep = |l: Seq<char>| kept(l);
    let mut out = String::new();
    let mut any = false;
    let mut j: usize = 0;
    while j < all.len()
        invariant
            ls == views(all@),
            keep == (|l: Seq<char>| kept(l)),
            j <= all@.len(),
            out@ == join_lines(ls.subrange(0, j as int).filter(keep)),
            any == (ls.subrange(0, j as int).filter(keep).len() > 0),
        decreases all@.len() - j,
    {
        let line = &all[j];
        let ghost prev = ls.subrange(0, j as int).filter(keep);
        proof {
            let next = ls.subrange(0, j + 1);
            assert(next.drop_last() =~= ls.subrange(0, j as int));
            assert(next.last() == line@);
        }
        let stays = !mentions_swap_exec(line.as_str()) && !(line.unicode_len() > 0 && line.as_str().get_char(0) == '#');
        proof {
            let next = ls.subrange(0, j + 1);
            assert(next.len() == j + 1);
            reveal_with_fuel(Seq::filter, 1);
            assert(stays == kept(line@));
            assert(keep(line@) == kept(line@));
            assert(next.filter(keep) == (if keep(next.last()) {
                next.drop_last().filter(keep).push(next.last())
            } else {
                next.drop_last().filter(keep)
            }));
        }
        if stays {
            if any {
                push_char(&mut out, '\n');
            }
            out.append(line.as_str());
            any = true;
            proof {
                let now = prev.push(line@);
                assert(now.drop_last() =~= prev);
                if prev.len() == 0 {
                    assert(out@ =~= join_lines(now));
                } else {
                    assert(out@ =~= join_lines(now));
                }
            }
        }
        j += 1;
    }
    proof {
        assert(ls.subrange(0, ls.len() as int) =~= ls);
    }
    out
}

} // verus!
