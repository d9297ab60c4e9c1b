//! The commands and lists that an installation is made of.
use crate::presets::{extend_unique, extended};
use crate::text::{string_of, strings, trim, trim_str};
use crate::tool::views;
use vstd::prelude::*;

verus! {

/// The packages every installation gets.
pub open spec fn base_packages() -> Seq<Seq<char>> {
    seq!["base"@, "linux"@, "linux-firmware"@, "grub"@, "efibootmgr"@, "intel-ucode"@, "networkmanager"@,
        "broadcom-wl"@, "amd-ucode"@]
}

/// What building AUR packages needs.
pub open spec fn aur_dependencies() -> Seq<Seq<char>> {
    seq!["base-devel"@, "git"@, "sudo"@]
}

/// The partition table: a 250 MiB EFI partition, a 1 MiB BIOS boot
/// partition and the rest for the root.
pub open spec fn partition_table_args() -> Seq<Seq<char>> {
    seq!["-Z"@, "-o"@, "--new=1::+250M"@, "--new=2::+1M"@, "--largest-new=3"@, "--typecode=1:EF00"@,
        "--typecode=2:EF02"@]
}

/// The arguments of `sgdisk` that lay out `disk`.
pub fn partition_args(disk: &str) -> (r: Vec<String>)
    ensures
        views(r@) == partition_table_args().push(disk@),
{
    let items = [
        "-Z", "-o", "--new=1::+250M", "--new=2::+1M", "--largest-new=3", "--typecode=1:EF00", "--typecode=2:EF02",
    ];
    let mut r = strings(&items);
    let ghost before = views(r@);
    r.push(string_of(disk));
    proof {
        assert(before =~= partition_table_args());
        assert(views(r@) =~= partition_table_args().push(disk@));
    }
    r
}

/// The packages to bootstrap: the base ones, those of the presets and the
/// AUR build dependencies, each once.
pub fn installation_packages(preset_packages: &Vec<String>) -> (r: Vec<String>)
    ensures
        views(r@) == extended(extended(base_packages(), views(preset_packages@)), aur_dependencies()),
{
    let base = [
        "base", "linux", "linux-firmware", "grub", "efibootmgr", "intel-ucode", "networkmanager", "broadcom-wl",
        "amd-ucode",
    ];
    let mut packages = strings(&base);
    proof {
        assert(views(packages@) =~= base_packages());
    }
    extend_unique(&mut packages, preset_packages);
    let deps = strings(&["base-devel", "git", "sudo"]);
    proof {
        assert(views(deps@) =~= aur_dependencies());
    }
    extend_unique(&mut packages, &deps);
    packages
}

/// The AUR packages to install: the shim first, then those of the presets,
/// then those asked for on the command line.
pub fn aur_package_list(preset_packages: &Vec<String>, requested: &Vec<String>) -> (r: Vec<String>)
    ensures
        views(r@) == seq!["shim-signed"@] + views(preset_packages@) + views(requested@),
{
    let mut r: Vec<String> = Vec::new();
    r.push(string_of("shim-signed"));
    let mut first = preset_packages.clone();
    let mut second = requested.clone();
    proof {
        assert(first@ =~= preset_packages@) by {
            assert forall|i: int| 0 <= i < first@.len() implies first@[i] == preset_packages@[i] by {
                assert(cloned::<String>(preset_packages@[i], first@[i]));
            }
        }
        assert(second@ =~= requested@) by {
            assert forall|i: int| 0 <= i < second@.len() implies second@[i] == requested@[i] by {
                assert(cloned::<String>(requested@[i], second@[i]));
            }
        }
    }
    r.append(&mut first);
    r.append(&mut second);
    proof {
        assert(views(r@) =~= seq!["shim-signed"@] + views(preset_packages@) + views(requested@));
    }
    r
}

/// The kernel command line entry that unlocks the root partition with the
/// UUID that `blkid` printed.
pub fn grub_cmdline(blkid_output: &str) -> (r: String)
    ensures
        r@ == "GRUB_CMDLINE_LINUX=\"cryptdevice=UUID="@ + trim(blkid_output@) + ":luks_root\""@,
{
    let mut line = string_of("GRUB_CMDLINE_LINUX=\"cryptdevice=UUID=");
    line.append(trim_str(blkid_output));
    line.append(":luks_root\"");
    line
}

/// The shell command that installs GRUB for BIOS and removable EFI boot on
/// `disk` and writes its configuration.
pub fn bootloader_script(disk: &str) -> (r: String)
    ensures
        r@ == "grub-install --target=i386-pc --boot-directory /boot "@ + disk@
            + " && grub-install --target=x86_64-efi --efi-directory /boot --boot-directory /boot --removable &&  grub-mkconfig -o /boot/grub/grub.cfg"@,
{
    let mut script = string_of("grub-install --target=i386-pc --boot-directory /boot ");
    script.append(disk);
    script.append(" && grub-install --target=x86_64-efi --efi-directory /boot --boot-directory /boot --removable &&  grub-mkconfig -o /boot/grub/grub.cfg");
    script
}

/// Where the AUR package `package` is cloned from.
pub fn aur_clone_url(package: &str) -> (r: String)
    ensures
        r@ == "https://aur.archlinux.org/"@ + package@ + ".git"@,
{
    let mut url = string_of("https://aur.archlinux.org/");
    url.append(package);
    url.append(".git");
    url
}

/// Where the AUR helper `name` is built, in the temporary user's home.
pub fn aur_build_dir(name: &str) -> (r: String)
    ensures
        r@ == "/home/aur/"@ + name@,
{
    let mut dir = string_of("/home/aur/");
    dir.append(name);
    dir
}

/// The shell command that builds and installs the AUR helper `name`.
pub fn aur_build_script(name: &str) -> (r: String)
    ensures
        r@ == "cd /home/aur/"@ + name@ + " && sudo -u aur makepkg -s -i --noconfirm"@,
{
    let mut script = string_of("cd /home/aur/");
    script.append(name);
    script.append(" && sudo -u aur makepkg -s -i --noconfirm");
    script
}

} // verus!
