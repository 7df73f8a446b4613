use sysmaster_core::install::{Install, InstallContext, SymlinkReq};
use sysmaster_core::preset::{
    PresetAction, PresetMode, PresetRule, Presets, UnitFileType, UnitInstall,
    read_presets_from_lines,
};
use sysmaster_core::records::UeConfigInstall;

#[test]
fn test_presets() {
    let mut presets = Presets::new();

    presets.add_rule(PresetRule::new(PresetAction::Enable, String::from("test.service")));
    presets.add_rule(PresetRule::new(PresetAction::Enable, String::from("rsyslog.*")));
    presets.add_rule(PresetRule::new(PresetAction::Disable, String::from("*")));

    assert_eq!(
        presets.unit_preset_action(String::from("test.service")),
        PresetAction::Enable
    );
    assert_eq!(
        presets.unit_preset_action(String::from("rsyslog.service")),
        PresetAction::Enable
    );
    assert_eq!(
        presets.unit_preset_action(String::from("rsyslog.socket")),
        PresetAction::Enable
    );
    assert_eq!(
        presets.unit_preset_action(String::from("tmp2.service")),
        PresetAction::Disable
    );
}

#[test]
fn presets_without_rules_decide_nothing() {
    let presets = Presets::new();
    assert_eq!(presets.unit_preset_action(String::from("x.service")), PresetAction::Unknown);
}

#[test]
fn preset_action_words() {
    assert_eq!(PresetAction::from_str("enable"), PresetAction::Enable);
    assert_eq!(PresetAction::from_str("disable"), PresetAction::Disable);
    assert_eq!(PresetAction::from_str("frobnicate"), PresetAction::Unknown);
}

#[test]
fn preset_lines_skip_comments_and_malformed() {
    let lines = vec![
        String::from("# a comment line"),
        String::from("  # indented comment enable x.service"),
        String::from("enable test.service"),
        String::from("three words here now"),
        String::from("frobnicate x.service"),
        String::from("disable *"),
        String::from("loneword"),
        String::from(""),
    ];
    let presets = read_presets_from_lines(&lines);
    assert_eq!(presets.rules.len(), 3);
    assert_eq!(presets.rules[0].action, PresetAction::Enable);
    assert_eq!(presets.rules[0].unit, "test.service");
    assert_eq!(presets.rules[1].action, PresetAction::Unknown);
    assert_eq!(presets.rules[1].unit, "x.service");
    assert_eq!(presets.rules[2].action, PresetAction::Disable);
    assert_eq!(presets.rules[2].unit, "*");
    assert_eq!(
        presets.unit_preset_action(String::from("test.service")),
        PresetAction::Enable
    );
    assert_eq!(
        presets.unit_preset_action(String::from("other.service")),
        PresetAction::Disable
    );
}

#[test]
fn unit_install_fill_and_getters() {
    let mut ui = UnitInstall::new("web.service");
    assert_eq!(ui.name(), "web.service");
    assert_eq!(ui.u_type(), UnitFileType::Invalid);
    ui.set_u_type(UnitFileType::Regular);
    ui.set_path(String::from("/lib/units/web.service"));
    let conf = UeConfigInstall {
        alias: vec![String::from("www.service")],
        wanted_by: vec![String::from("multi-user.target")],
        required_by: vec![String::from("basic.target")],
        also: vec![String::from("web.socket")],
    };
    ui.fill_struct(&conf);
    assert_eq!(ui.alias(), vec![String::from("www.service")]);
    assert_eq!(ui.wanted_by(), vec![String::from("multi-user.target")]);
    assert_eq!(ui.required_by(), vec![String::from("basic.target")]);
    assert_eq!(ui.path(), "/lib/units/web.service");
}

fn regular_install(name: &str, path: &str, wanted_by: &str) -> UnitInstall {
    let mut ui = UnitInstall::new(name);
    ui.set_u_type(UnitFileType::Regular);
    ui.set_path(String::from(path));
    let conf = UeConfigInstall {
        alias: Vec::new(),
        wanted_by: vec![String::from(wanted_by)],
        required_by: Vec::new(),
        also: Vec::new(),
    };
    ui.fill_struct(&conf);
    ui
}

#[test]
fn install_context_plans_symlinks() {
    let mut ctx = InstallContext::new();
    let ui = regular_install("web.service", "/lib/units/web.service", "multi-user.target");
    ctx.add_unit_install("web.service", ui);
    assert!(ctx.installed_unit("web.service"));
    assert!(!ctx.installed_unit("other.service"));
    let links: Vec<SymlinkReq> = ctx.apply_enable_unit_install("/etc/units");
    assert_eq!(links.len(), 1);
    assert_eq!(links[0].source, "/lib/units/web.service");
    assert_eq!(links[0].target, "/etc/units/multi-user.target.wants/web.service");
    assert!(links[0].ensure_parent);
    assert_eq!(ctx.will_process.len(), 0);
    assert_eq!(ctx.processed.len(), 1);
}

#[test]
fn install_context_keeps_non_regular() {
    let mut ctx = InstallContext::new();
    let mut masked = UnitInstall::new("m.service");
    masked.set_u_type(UnitFileType::Masked);
    ctx.add_unit_install("m.service", masked);
    let links = ctx.apply_enable_unit_install("/etc/units");
    assert!(links.is_empty());
    assert_eq!(ctx.will_process.len(), 1);
    assert_eq!(ctx.processed.len(), 0);
}

#[test]
fn collect_disable_dedups_names() {
    let mut ctx = InstallContext::new();
    ctx.prepare_unit_install("a.service");
    ctx.prepare_unit_install("b.service");
    let mut removals = vec![String::from("a.service")];
    ctx.collect_disable_install(&mut removals);
    assert_eq!(removals, vec![String::from("a.service"), String::from("b.service")]);
    assert_eq!(ctx.processed.len(), 2);
    assert_eq!(ctx.will_process.len(), 0);
}

#[test]
fn execute_preset_enable_mode_plans_links_only() {
    let mut install = Install::new(PresetMode::Enable);
    let ui = regular_install("web.service", "/lib/units/web.service", "multi-user.target");
    install.enable_ctx.add_unit_install("web.service", ui);
    install.disable_ctx.prepare_unit_install("gone.service");
    let (removals, links) = install.execute_preset("/etc/units");
    assert!(removals.is_empty());
    assert_eq!(links.len(), 1);
}

#[test]
fn execute_preset_disable_mode_collects_removals_only() {
    let mut install = Install::new(PresetMode::Disable);
    install.disable_ctx.prepare_unit_install("gone.service");
    let (removals, links) = install.execute_preset("/etc/units");
    assert_eq!(removals, vec![String::from("gone.service")]);
    assert!(links.is_empty());
}

#[test]
fn preset_one_file_routes_by_rules() {
    let mut presets = Presets::new();
    presets.add_rule(PresetRule::new(PresetAction::Disable, String::from("*")));
    let install = Install::new(PresetMode::Enable);
    assert_eq!(
        install.preset_one_file("x.service", &presets),
        Some(PresetAction::Disable)
    );
    let mut install2 = Install::new(PresetMode::Enable);
    install2.enable_ctx.prepare_unit_install("x.service");
    assert_eq!(install2.preset_one_file("x.service", &presets), None);
}

#[test]
fn invalid_glob_pattern_is_passed_over() {
    let mut presets = Presets::new();
    presets.add_rule(PresetRule::new(PresetAction::Enable, String::from("[")));
    presets.add_rule(PresetRule::new(PresetAction::Disable, String::from("*")));
    assert_eq!(
        presets.unit_preset_action(String::from("x.service")),
        PresetAction::Disable
    );
}
