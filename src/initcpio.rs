use crate::text::string_of;
use vstd::prelude::*;

verus! {

/// The initramfs configuration of the installed system.
#[derive(Debug)]
pub struct Initcpio {
    encrypted: bool,
}

/// The configuration text: the `encrypt` hook goes before `filesystems`
/// exactly when the root is encrypted.
pub open spec fn initcpio_config(encrypted: bool) -> Seq<char> {
    "MODULES=()\nBINARIES=()\nFILES=()\nHOOKS=(base udev keyboard consolefont block "@
        + (if encrypted { "encrypt "@ } else { Seq::empty() })
        + "filesystems keyboard fsck)\n"@
}

impl Initcpio {
    pub closed spec fn encrypted_view(&self) -> bool {
        self.encrypted
    }

    pub fn new(encrypted: bool) -> (r: Initcpio)
        ensures
            r.encrypted_view() == encrypted,
    {
        Initcpio { encrypted }
    }

    /// The contents of `mkinitcpio.conf`.
    pub fn to_config(&self) -> (r: String)
        ensures
            r@ == initcpio_config(self.encrypted_view()),
    {
        let mut output = string_of("MODULES=()\nBINARIES=()\nFILES=()\nHOOKS=(base udev keyboard consolefont block ");
        if self.encrypted {
            output.append("encrypt ");
        }
        output.append("filesystems keyboard fsck)\n");
        proof {
            if !self.encrypted {
                assert(output@ =~= initcpio_config(false));
            }
        }
        output
    }
}

} // verus!
