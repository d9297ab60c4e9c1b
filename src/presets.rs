//! Presets: packages, AUR packages, environment variables and scripts that
//! preset files add to an installation.
use crate::error::ErrorKind;
use crate::tool::views;
use vstd::prelude::*;

verus! {

/// The contents of one preset file.
#[derive(Debug)]
pub struct Preset {
    pub packages: Option<Vec<String>>,
    pub script: Option<String>,
    pub environment_variables: Option<Vec<String>>,
    pub shared_directories: Option<Vec<String>>,
    pub aur_packages: Option<Vec<String>>,
}

/// A script to run inside the installed system, with the host directories
/// to bind-mount for it.
#[derive(Debug)]
pub struct Script {
    pub script_text: String,
    pub shared_dirs: Option<Vec<String>>,
}

/// What all presets add up to. Package lists hold each name once.
#[derive(Debug)]
pub struct PresetsCollection {
    pub packages: Vec<String>,
    pub aur_packages: Vec<String>,
    pub scripts: Vec<Script>,
}

/// `set` with those of `items` that it lacks appended, in order, each once.
pub open spec fn extended(set: Seq<Seq<char>>, items: Seq<Seq<char>>) -> Seq<Seq<char>>
    decreases items.len(),
{
    if items.len() == 0 {
        set
    } else {
        let before = extended(set, items.drop_last());
        if before.contains(items.last()) {
            before
        } else {
            before.push(items.last())
        }
    }
}

/// The names in an optional list.
pub open spec fn listed(items: Option<Vec<String>>) -> Seq<Seq<char>> {
    match items {
        Some(v) => views(v@),
        None => Seq::empty(),
    }
}

/// Joining names to a set keeps each name once and yields exactly the names
/// of the set and of the items.
pub proof fn lemma_extended_holds(set: Seq<Seq<char>>, items: Seq<Seq<char>>)
    requires
        set.no_duplicates(),
    ensures
        extended(set, items).no_duplicates(),
        forall|x: Seq<char>| #[trigger] extended(set, items).contains(x) <==> (set.contains(x) || items.contains(x)),
    decreases items.len(),
{
    if items.len() > 0 {
        lemma_extended_holds(set, items.drop_last());
        let before = extended(set, items.drop_last());
        assert forall|x: Seq<char>| #[trigger] extended(set, items).contains(x) <==> (set.contains(x) || items.contains(x)) by {
            if items.contains(x) && !items.drop_last().contains(x) {
                let i = choose|i: int| 0 <= i < items.len() && items[i] == x;
                if i < items.len() - 1 {
                    assert(items.drop_last()[i] == x);
                }
                assert(x == items.last());
                if !before.contains(x) {
                    assert(before.push(x)[before.len() as int] == x);
                }
            }
            if items.drop_last().contains(x) {
                let i = choose|i: int| 0 <= i < items.drop_last().len() && items.drop_last()[i] == x;
                assert(items[i] == x);
            }
            if !before.contains(items.last()) {
                if before.push(items.last()).contains(x) && x != items.last() {
                    let i = choose|i: int| 0 <= i < before.len() + 1 && before.push(items.last())[i] == x;
                    assert(before[i] == x);
                }
                if before.contains(x) {
                    let i = choose|i: int| 0 <= i < before.len() && before[i] == x;
                    assert(before.push(items.last())[i] == x);
                }
            }
            if extended(set, items).contains(x) && x == items.last() {
                assert(items[items.len() - 1] == x);
            }
        }
    }
}

fn contains_text(v: &Vec<String>, s: &String) -> (r: bool)
    ensures
        r == views(v@).contains(s@),
{
    let mut i: usize = 0;
    while i < v.len()
        invariant
            i <= v@.len(),
            forall|j: int| 0 <= j < i ==> v@[j]@ != s@,
        decreases v@.len() - i,
    {
        if v[i] == *s {
            proof {
                assert(views(v@)[i as int] == s@);
            }
            return true;
        }
        i += 1;
    }
    proof {
        if views(v@).contains(s@) {
            let j = choose|j: int| 0 <= j < views(v@).len() && views(v@)[j] == s@;
            assert(v@[j]@ == s@);
        }
    }
    false
}

/// Adds to `set` those of `items` that it lacks.
pub fn extend_unique(set: &mut Vec<String>, items: &Vec<String>)
    ensures
        views(final(set)@) == extended(views(old(set)@), views(items@)),
{
    let mut i: usize = 0;
    while i < items.len()
        invariant
            i <= items@.len(),
            views(set@) == extended(views(old(set)@), views(items@).subrange(0, i as int)),
        decreases items@.len() - i,
    {
        let ghost done = views(items@).subrange(0, i as int);
        proof {
            let next = views(items@).subrange(0, i + 1);
            assert(next.drop_last() =~= done);
            assert(next.last() == items@[i as int]@);
        }
        if !contains_text(set, &items[i]) {
            let ghost before = views(set@);
            set.push(items[i].clone());
            proof {
                assert(views(set@) =~= before.push(items@[i as int]@));
            }
        }
        i += 1;
    }
    proof {
        assert(views(items@).subrange(0, items@.len() as int) =~= views(items@));
    }
}

/// The names of `list`, if any, joined to `set`.
fn extend_from(set: &mut Vec<String>, list: &Option<Vec<String>>)
    ensures
        views(final(set)@) == extended(views(old(set)@), listed(*list)),
{
    match list {
        Some(items) => extend_unique(set, items),
        None => {},
    }
}

impl Preset {
    /// Adds this preset to what was gathered so far: its packages, AUR
    /// packages and environment variables join their sets, and its script,
    /// if any, joins the scripts with `shared_dirs`, the preset's shared
    /// directories as resolved by the caller.
    pub fn process(
        &self,
        packages: &mut Vec<String>,
        scripts: &mut Vec<Script>,
        environment_variables: &mut Vec<String>,
        shared_dirs: Option<Vec<String>>,
        aur_packages: &mut Vec<String>,
    )
        ensures
            views(final(packages)@) == extended(views(old(packages)@), listed(self.packages)),
            views(final(aur_packages)@) == extended(views(old(aur_packages)@), listed(self.aur_packages)),
            views(final(environment_variables)@)
                == extended(views(old(environment_variables)@), listed(self.environment_variables)),
            self.script is None ==> final(scripts)@ == old(scripts)@,
            self.script matches Some(text) ==> final(scripts)@.len() == old(scripts)@.len() + 1
                && final(scripts)@.drop_last() == old(scripts)@
                && final(scripts)@.last().script_text@ == text@
                && listed(final(scripts)@.last().shared_dirs) == listed(shared_dirs)
                && (final(scripts)@.last().shared_dirs is None <==> shared_dirs is None),
    {
        extend_from(packages, &self.packages);
        extend_from(aur_packages, &self.aur_packages);
        extend_from(environment_variables, &self.environment_variables);
        match &self.script {
            Some(text) => {
                scripts.push(Script { script_text: text.clone(), shared_dirs });
            },
            None => {},
        }
    }
}

impl PresetsCollection {
    /// The collection gathered from all presets, unless some environment
    /// variable that they need is missing: `missing` lists those.
    pub fn new(
        packages: Vec<String>,
        aur_packages: Vec<String>,
        scripts: Vec<Script>,
        missing: Vec<String>,
    ) -> (r: Result<PresetsCollection, ErrorKind>)
        ensures
            missing@.len() == 0 ==> (r matches Ok(c) && c.packages == packages && c.aur_packages == aur_packages
                && c.scripts == scripts),
            missing@.len() > 0 ==> r == Err::<PresetsCollection, ErrorKind>(ErrorKind::MissingEnvironmentVariables(missing)),
    {
        if missing.len() > 0 {
            return Err(ErrorKind::MissingEnvironmentVariables(missing));
        }
        Ok(PresetsCollection { packages, aur_packages, scripts })
    }
}

} // verus!
