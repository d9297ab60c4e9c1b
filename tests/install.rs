use alma::constants::{BOOT_PARTITION_INDEX, ROOT_PARTITION_INDEX};
use alma::error::ErrorKind;
use alma::fstab::fix_fstab;
use alma::install::{
    aur_build_dir, aur_build_script, aur_clone_url, aur_package_list, bootloader_script, grub_cmdline,
    installation_packages, partition_args,
};
use alma::presets::{extend_unique, Preset, PresetsCollection, Script};

fn owned(items: &[&str]) -> Vec<String> {
    items.iter().map(|s| s.to_string()).collect()
}

#[test]
fn fstab_drops_swap_and_comments() {
    let fstab = "# /dev/sda3\nUUID=1 / ext4 rw 0 1\n\n# /dev/sda1\nUUID=2 /boot vfat rw 0 2\n/swapfile none swap defaults 0 0\n";
    assert_eq!(fix_fstab(fstab), "UUID=1 / ext4 rw 0 1\n\nUUID=2 /boot vfat rw 0 2");
}

#[test]
fn fstab_edge_cases() {
    assert_eq!(fix_fstab(""), "");
    assert_eq!(fix_fstab("a\r\nb"), "a\nb");
    assert_eq!(fix_fstab("#only comments\n# here"), "");
    assert_eq!(fix_fstab("x # not a comment\n  #indented"), "x # not a comment\n  #indented");
    assert_eq!(fix_fstab("UUID=3 none swap sw 0 0"), "");
}

#[test]
fn partition_layout_arguments() {
    assert_eq!(
        partition_args("/dev/sdb"),
        owned(&["-Z", "-o", "--new=1::+250M", "--new=2::+1M", "--largest-new=3", "--typecode=1:EF00", "--typecode=2:EF02", "/dev/sdb"])
    );
    assert_eq!(BOOT_PARTITION_INDEX, 1);
    assert_eq!(ROOT_PARTITION_INDEX, 3);
}

#[test]
fn packages_are_merged_once_each() {
    let packages = installation_packages(&owned(&["vim", "git", "linux", "vim"]));
    assert_eq!(
        packages,
        owned(&["base", "linux", "linux-firmware", "grub", "efibootmgr", "intel-ucode", "networkmanager", "broadcom-wl", "amd-ucode", "vim", "git", "base-devel", "sudo"])
    );
}

#[test]
fn aur_packages_start_with_the_shim() {
    assert_eq!(aur_package_list(&owned(&["a"]), &owned(&["b", "a"])), owned(&["shim-signed", "a", "b", "a"]));
    assert_eq!(aur_package_list(&vec![], &vec![]), owned(&["shim-signed"]));
}

#[test]
fn bootloader_and_aur_commands() {
    assert_eq!(grub_cmdline("  1234-abcd\n"), "GRUB_CMDLINE_LINUX=\"cryptdevice=UUID=1234-abcd:luks_root\"");
    assert_eq!(
        bootloader_script("/dev/sdb"),
        "grub-install --target=i386-pc --boot-directory /boot /dev/sdb && grub-install --target=x86_64-efi --efi-directory /boot --boot-directory /boot --removable &&  grub-mkconfig -o /boot/grub/grub.cfg"
    );
    assert_eq!(aur_clone_url("yay-bin"), "https://aur.archlinux.org/yay-bin.git");
    assert_eq!(aur_build_dir("yay"), "/home/aur/yay");
    assert_eq!(aur_build_script("paru"), "cd /home/aur/paru && sudo -u aur makepkg -s -i --noconfirm");
}

#[test]
fn sets_gain_only_new_names() {
    let mut set = owned(&["a", "b"]);
    extend_unique(&mut set, &owned(&["b", "c", "c", "a", "d"]));
    assert_eq!(set, owned(&["a", "b", "c", "d"]));
}

#[test]
fn preset_adds_packages_variables_and_script() {
    let preset = Preset {
        packages: Some(owned(&["vim", "base"])),
        script: Some("echo hi".to_string()),
        environment_variables: Some(owned(&["TOKEN"])),
        shared_directories: Some(owned(&["data"])),
        aur_packages: None,
    };
    let mut packages = owned(&["base"]);
    let mut scripts: Vec<Script> = Vec::new();
    let mut variables = Vec::new();
    let mut aur = owned(&["x"]);
    preset.process(&mut packages, &mut scripts, &mut variables, Some(owned(&["/presets/data"])), &mut aur);
    assert_eq!(packages, owned(&["base", "vim"]));
    assert_eq!(variables, owned(&["TOKEN"]));
    assert_eq!(aur, owned(&["x"]));
    assert_eq!(scripts.len(), 1);
    assert_eq!(scripts[0].script_text, "echo hi");
    assert_eq!(scripts[0].shared_dirs, Some(owned(&["/presets/data"])));
}

#[test]
fn preset_without_script_adds_none() {
    let preset = Preset { packages: None, script: None, environment_variables: None, shared_directories: None, aur_packages: Some(owned(&["yay"])) };
    let mut packages = Vec::new();
    let mut scripts: Vec<Script> = Vec::new();
    let mut variables = Vec::new();
    let mut aur = Vec::new();
    preset.process(&mut packages, &mut scripts, &mut variables, None, &mut aur);
    assert!(packages.is_empty() && scripts.is_empty() && variables.is_empty());
    assert_eq!(aur, owned(&["yay"]));
}

#[test]
fn missing_variables_refuse_the_collection() {
    let err = PresetsCollection::new(vec![], vec![], vec![], owned(&["TOKEN"])).unwrap_err();
    assert_eq!(err, ErrorKind::MissingEnvironmentVariables(owned(&["TOKEN"])));
    let ok = PresetsCollection::new(owned(&["vim"]), vec![], vec![], vec![]).unwrap();
    assert_eq!(ok.packages, owned(&["vim"]));
}
