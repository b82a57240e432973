use orbiscreen::capabilities::{CaptureStep, Compositor};
use orbiscreen::config::Config;
use orbiscreen::display::DisplayStatus;
use orbiscreen::doctor::{
    cfg_default_signaling_port, display_status_text, doctor_fix_precheck,
    evdi_fix_plan_for_os_release, is_yes, module_ready_after_fix, FixPrecheck,
};

fn plan_pm(os_release: &str) -> Option<&'static str> {
    evdi_fix_plan_for_os_release(os_release).map(|p| p.package_manager)
}

#[test]
fn default_config_loads_when_file_absent() {
    let cfg = Config::default();
    assert_eq!(cfg.display.width, 1920);
}

#[test]
fn fedora_uses_dnf() {
    let os = "NAME=\"Fedora Linux\"\nID=fedora\nVERSION_ID=\"41\"\n";
    assert_eq!(plan_pm(os), Some("dnf"));
}

#[test]
fn rhel_derivative_uses_dnf_via_id_like() {
    let os = "NAME=\"Rocky Linux\"\nID=\"rocky\"\nID_LIKE=\"rhel centos fedora\"\n";
    assert_eq!(plan_pm(os), Some("dnf"));
}

#[test]
fn ubuntu_uses_apt() {
    let os = "NAME=\"Ubuntu\"\nID=ubuntu\nID_LIKE=debian\n";
    assert_eq!(plan_pm(os), Some("apt"));
}

#[test]
fn debian_derivative_uses_apt_via_id_like() {
    let os = "NAME=\"Linux Mint\"\nID=linuxmint\nID_LIKE=\"ubuntu debian\"\n";
    assert_eq!(plan_pm(os), Some("apt"));
}

#[test]
fn arch_uses_pacman() {
    let os = "NAME=\"Arch Linux\"\nID=arch\n";
    assert_eq!(plan_pm(os), Some("pacman"));
}

#[test]
fn opensuse_uses_zypper() {
    let os =
        "NAME=\"openSUSE Tumbleweed\"\nID=\"opensuse-tumbleweed\"\nID_LIKE=\"opensuse suse\"\n";
    assert_eq!(plan_pm(os), Some("zypper"));
}

#[test]
fn unknown_distro_has_no_plan() {
    let os = "NAME=\"Gentoo\"\nID=gentoo\n";
    assert_eq!(plan_pm(os), None);
}

#[test]
fn empty_os_release_has_no_plan() {
    assert_eq!(plan_pm(""), None);
}

#[test]
fn fedora_plan_installs_evdi_package() {
    let plan = evdi_fix_plan_for_os_release("ID=fedora\n").expect("fedora plan");
    assert!(plan.install_cmd.contains(&"evdi".to_string()));
    assert!(plan.install_cmd.iter().any(|c| c == "sudo"));
}

#[test]
fn apt_plan_installs_evdi_dkms_with_headers() {
    let plan = evdi_fix_plan_for_os_release("ID=ubuntu\n").expect("apt plan");
    assert!(plan.install_cmd.contains(&"evdi-dkms".to_string()));
    assert!(plan.install_cmd.contains(&"linux-headers-generic".to_string()));
}

#[test]
fn pacman_plan_is_non_interactive() {
    let plan = evdi_fix_plan_for_os_release("ID=arch\n").expect("arch plan");
    assert_eq!(plan.install_cmd, vec!["sudo", "pacman", "-S", "--noconfirm", "evdi"]);
}

#[test]
fn yes_answers() {
    assert!(is_yes("y"));
    assert!(is_yes(" YES\n"));
    assert!(!is_yes("no"));
    assert!(!is_yes(""));
}

#[test]
fn precheck_by_session_and_status() {
    assert_eq!(
        doctor_fix_precheck(Compositor::Kde, &[], false, DisplayStatus::KernelModuleMissing),
        FixPrecheck::NativeKwin
    );
    assert_eq!(
        doctor_fix_precheck(Compositor::Gnome, &[CaptureStep::WlrootsVirtual], false, DisplayStatus::Outdated),
        FixPrecheck::NativeWlroots
    );
    assert_eq!(
        doctor_fix_precheck(Compositor::Gnome, &[], false, DisplayStatus::KernelModuleMissing),
        FixPrecheck::NeedsModule
    );
    assert!(doctor_fix_precheck(Compositor::Gnome, &[], false, DisplayStatus::NoDeviceNode).done_ok());
    assert!(!FixPrecheck::Outdated.done_ok());
    assert!(module_ready_after_fix(DisplayStatus::Compatible));
    assert!(!module_ready_after_fix(DisplayStatus::KernelModuleMissing));
    assert_eq!(display_status_text(DisplayStatus::KernelModuleMissing), "kernel module missing");
    assert_eq!(cfg_default_signaling_port(), 8788);
}

fn facts() -> orbiscreen::doctor::DoctorFacts {
    orbiscreen::doctor::DoctorFacts {
        session: orbiscreen::capabilities::SessionType::Wayland,
        current_desktop: Some("GNOME".to_string()),
        compositor: Compositor::Gnome,
        chain: vec![CaptureStep::Portal, CaptureStep::Evdi],
        display_status: DisplayStatus::KernelModuleMissing,
        uinput_writable: false,
        portal: None,
        screencast_saved: true,
        input_saved: false,
        swaymsg: false,
        hyprctl: false,
        cosmic_comp: false,
        cosmic_randr: false,
        wlr_ipc: None,
        adb_installed: true,
        devices: vec!["A1".to_string(), "B2".to_string()],
    }
}

#[test]
fn doctor_card_rows() {
    let rows = orbiscreen::doctor::doctor_rows(&facts(), false);
    let get = |k: &str| rows.iter().find(|r| r.0 == k).map(|r| r.1.clone()).unwrap();
    assert_eq!(rows.len(), 9);
    assert_eq!(get("Session / Desktop"), "Wayland (XDG_CURRENT_DESKTOP=GNOME)");
    assert_eq!(get("Compositor"), "GNOME (Mutter)");
    assert_eq!(get("Capture Pipeline"), "Portal ➔ EVDI");
    assert_eq!(get("Virtual Display"), "[WARN] Kernel module missing");
    assert_eq!(get("Input Injection"), "[WARN] Needs root or uinput group");
    assert_eq!(get("Desktop Portal"), "[INFO] Unchecked (Session bus not connected)");
    assert_eq!(get("Saved Grants"), "Screencast: Saved (Reused) · Remote Input: Prompt on start");
    assert_eq!(get("Compositor Tools"), "Mutter Portal (Native)");
    assert_eq!(get("USB ADB Tunnel"), "[OK] Devices connected (A1, B2)");
    assert_eq!(orbiscreen::doctor::doctor_backend(&facts()), "kernel module missing");
    let mut kde = facts();
    kde.compositor = Compositor::Kde;
    assert_eq!(orbiscreen::doctor::doctor_backend(&kde), "Native (KWin Virtual)");
    let mut wlr = facts();
    wlr.wlr_ipc = Some(orbiscreen::wlroots::WlrootsIpcKind::Sway);
    let rows = orbiscreen::doctor::doctor_rows(&wlr, false);
    assert_eq!(rows[3].1, "[OK] Native (sway)");
}
