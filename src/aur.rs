use crate::text::{string_of, strings};
use crate::tool::views;
use vstd::prelude::*;

verus! {

/// An AUR helper: how it is named, which package provides it, and the
/// command that installs packages with it without asking.
#[derive(Debug)]
pub struct AurHelper {
    pub name: String,
    pub package_name: String,
    pub install_command: Vec<String>,
}

/// The unattended install command of `paru`.
pub open spec fn paru_command() -> Seq<Seq<char>> {
    seq!["paru"@, "-S"@, "--skipreview"@, "--noupgrademenu"@, "--useask"@, "--removemake"@, "--norebuild"@,
        "--nocleanafter"@, "--noredownload"@, "--mflags"@, ""@, "--noconfirm"@, "--batchinstall"@]
}

/// The unattended install command of `yay`.
pub open spec fn yay_command() -> Seq<Seq<char>> {
    seq!["yay"@, "-S"@, "--nocleanmenu"@, "--nodiffmenu"@, "--noeditmenu"@, "--noupgrademenu"@, "--useask"@,
        "--removemake"@, "--norebuild"@, "--answeredit"@, "None"@, "--answerclean"@, "None"@, "--mflags"@,
        "--noconfirm"@]
}

impl AurHelper {
    /// The helper called `s`: `paru` or `yay`; any other name is unknown.
    pub fn from_name(s: &str) -> (r: Option<AurHelper>)
        ensures
            s@ == "paru"@ ==> (r matches Some(h) && h.name@ == "paru"@ && h.package_name@ == "paru-bin"@
                && views(h.install_command@) == paru_command()),
            s@ == "yay"@ ==> (r matches Some(h) && h.name@ == "yay"@ && h.package_name@ == "yay-bin"@
                && views(h.install_command@) == yay_command()),
            s@ != "paru"@ && s@ != "yay"@ ==> r is None,
    {
        proof {
            reveal_strlit("paru");
            reveal_strlit("yay");
            assert("paru"@.len() != "yay"@.len());
        }
        if crate::text::same_text(s, "paru") {
            let items = [
                "paru", "-S", "--skipreview", "--noupgrademenu", "--useask", "--removemake", "--norebuild",
                "--nocleanafter", "--noredownload", "--mflags", "", "--noconfirm", "--batchinstall",
            ];
            let install_command = strings(&items);
            proof {
                assert(views(install_command@) =~= paru_command());
            }
            Some(AurHelper { name: string_of("paru"), package_name: string_of("paru-bin"), install_command })
        } else if crate::text::same_text(s, "yay") {
            let items = [
                "yay", "-S", "--nocleanmenu", "--nodiffmenu", "--noeditmenu", "--noupgrademenu", "--useask",
                "--removemake", "--norebuild", "--answeredit", "None", "--answerclean", "None", "--mflags",
                "--noconfirm",
            ];
            let install_command = strings(&items);
            proof {
                assert(views(install_command@) =~= yay_command());
            }
            Some(AurHelper { name: string_of("yay"), package_name: string_of("yay-bin"), install_command })
        } else {
            None
        }
    }
}

impl std::str::FromStr for AurHelper {
    type Err = String;

    fn from_str(s: &str) -> Result<AurHelper, String> {
        match AurHelper::from_name(s) {
            Some(helper) => Ok(helper),
            None => {
                let mut message = string_of("Error parsing AUR helper string: ");
                message.append(s);
                Err(message)
            },
        }
    }
}

} // verus!
