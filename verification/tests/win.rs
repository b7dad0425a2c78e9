use divvun_bundler::template::TemplateError;
use divvun_bundler::targets::win::{
    get_signtool_path, make_nsi_speller, make_nsi_spellchecker, nsis_invocation,
    nsis_search_dirs, nsis_setup_signtool, spellchecker_installer_name, speller_installer_name,
    wine_path, windows_build_step, Platform, WinAction, WinBuild, WinEvent, WinPhase, BUILT_INSTALLER_FILE, SCRIPT_FILE, SPELLCHECKER_FILE, SPELLER_FILE,
};

fn strings(v: &[&str]) -> Vec<String> {
    v.iter().map(|s| s.to_string()).collect()
}

fn windows_sign(pfx_path: &str, sign_pfx_password: &str, app_name: &str, file_name: &str) -> String {
    format!(
        "{signtool_path} sign \
         /t http://timestamp.verisign.com/scripts/timstamp.dll \
         /f \"{pfx_path}\" \
         /p \"{sign_pfx_password}\" \
         /d \"{app_name}\" {file_name}",
        pfx_path = pfx_path,
        app_name = app_name,
        sign_pfx_password = sign_pfx_password,
        signtool_path = "SignTool",
        file_name = file_name
    )
}

fn wine_sign(signtool_path: &str, pfx_path: &str, sign_pfx_password: &str, app_name: &str, file_name: &str) -> String {
    format!(
        "{signtool_path} sign \
         -pkcs12 \"{pfx_path}\" \
         -pass \"{sign_pfx_password}\" \
         -n \"{app_name}\" \
         -t http://timestamp.verisign.com/scripts/timstamp.dll \
         -in {file_name} \
         -out signed && del {file_name} && move signed {file_name}",
        pfx_path = pfx_path,
        app_name = app_name,
        sign_pfx_password = sign_pfx_password,
        signtool_path = signtool_path,
        file_name = file_name
    )
}

#[test]
fn wine_path_off_windows() {
    assert_eq!(wine_path("/home/user/out/installer.nsi", Platform::Wine), "Z:\\home\\user\\out\\installer.nsi");
    assert_eq!(wine_path("", Platform::Wine), "Z:");
    assert_eq!(wine_path("/ä/b c", Platform::Wine), "Z:\\ä\\b c");
}

#[test]
fn wine_path_off_windows_has_no_slash() {
    let p = wine_path("/a//b/", Platform::Wine);
    assert!(!p.contains('/'));
    assert_eq!(p.chars().count(), "/a//b/".chars().count() + 2);
}

#[test]
fn wine_path_on_windows_strips_the_verbatim_prefix() {
    assert_eq!(wine_path("\\\\?\\C:\\Users\\me\\installer.nsi", Platform::Windows), "C:\\Users\\me\\installer.nsi");
    assert_eq!(wine_path("\\\\?\\", Platform::Windows), "");
    assert_eq!(wine_path("abé", Platform::Windows), "");
    assert_eq!(wine_path("aéxyz", Platform::Windows), "yz");
}

#[test]
fn signtool_path_by_platform() {
    assert_eq!(get_signtool_path(Platform::Windows, ""), "SignTool");
    assert_eq!(get_signtool_path(Platform::Wine, "/opt/osslsigncode.exe"), "Z:\\opt\\osslsigncode.exe");
}

#[test]
fn sign_command_on_windows() {
    assert_eq!(
        nsis_setup_signtool(Platform::Windows, "", "Divvun", "\\\\?\\C:\\cert.pfx", "s3cret", "installer.exe"),
        windows_sign("C:\\cert.pfx", "s3cret", "Divvun", "installer.exe")
    );
}

#[test]
fn sign_command_through_wine() {
    assert_eq!(
        nsis_setup_signtool(Platform::Wine, "/opt/ossl.exe", "Divvun", "/keys/cert.pfx", "pw", "uninstall.exe"),
        wine_sign("Z:\\opt\\ossl.exe", "Z:\\keys\\cert.pfx", "pw", "Divvun", "uninstall.exe")
    );
}

const SPELLER_TEMPLATE: &str = "!define APP_ID \"{app_id}\"\n!define NAME \"{app_name} ({bcp47code})\"\n!define VERSION {version}.{build}\n!finalize '{sign_tool}'\n!uninstfinalize '{sign_tool_uninstaller}'\nFunction .onInit {{ }}\n";

#[test]
fn unsigned_speller_script() {
    let script = make_nsi_speller(SPELLER_TEMPLATE, Platform::Wine, "", "{UUID}", "Divvun", "se", "1.2", 5, None, None).unwrap();
    assert_eq!(
        script,
        "!define APP_ID \"{UUID}\"\n!define NAME \"Divvun (se)\"\n!define VERSION 1.2.5\n!finalize 'rem'\n!uninstfinalize 'rem'\nFunction .onInit { }\n"
    );
}

#[test]
fn signed_speller_script() {
    let script = make_nsi_speller(
        SPELLER_TEMPLATE,
        Platform::Wine,
        "/opt/ossl.exe",
        "id",
        "Divvun",
        "sma",
        "1.0",
        0,
        Some("/k/c.pfx"),
        Some("pw"),
    )
    .unwrap();
    let installer = wine_sign("Z:\\opt\\ossl.exe", "Z:\\k\\c.pfx", "pw", "Divvun", "installer.exe");
    let uninstaller = wine_sign("Z:\\opt\\ossl.exe", "Z:\\k\\c.pfx", "pw", "Divvun", "uninstall.exe");
    assert_eq!(
        script,
        format!(
            "!define APP_ID \"id\"\n!define NAME \"Divvun (sma)\"\n!define VERSION 1.0.0\n!finalize '{}'\n!uninstfinalize '{}'\nFunction .onInit {{ }}\n",
            installer, uninstaller
        )
    );
}

#[test]
fn signed_speller_script_on_windows() {
    let script = make_nsi_speller(
        "{app_id}{app_name}{bcp47code}{version}{build}:{sign_tool}|{sign_tool_uninstaller}",
        Platform::Windows,
        "",
        "id",
        "D",
        "se",
        "1",
        1,
        Some("\\\\?\\C:\\c.pfx"),
        Some("pw"),
    )
    .unwrap();
    assert_eq!(
        script,
        format!("idDse11:{}|{}", windows_sign("C:\\c.pfx", "pw", "D", "installer.exe"), windows_sign("C:\\c.pfx", "pw", "D", "uninstall.exe"))
    );
}

#[test]
fn speller_template_errors() {
    assert_eq!(
        make_nsi_speller("{unknown}", Platform::Wine, "", "i", "n", "se", "1", 1, None, None),
        Err(TemplateError::UnknownName(0))
    );
    assert_eq!(
        make_nsi_speller("${If}", Platform::Wine, "", "i", "n", "se", "1", 1, None, None),
        Err(TemplateError::UnknownName(1))
    );
    assert_eq!(
        make_nsi_speller("a {version", Platform::Wine, "", "i", "n", "se", "1", 1, None, None),
        Err(TemplateError::UnclosedPlaceholder(2))
    );
    assert_eq!(
        make_nsi_speller("}", Platform::Wine, "", "i", "n", "se", "1", 1, None, None),
        Err(TemplateError::UnmatchedBrace(0))
    );
}

#[test]
fn speller_template_must_use_every_value() {
    assert_eq!(
        make_nsi_speller("{app_id}", Platform::Wine, "", "i", "n", "se", "1", 1, None, None),
        Err(TemplateError::UnusedBinding(1))
    );
    assert_eq!(
        make_nsi_speller(
            "{app_id}{app_name}{bcp47code}{sign_tool}{sign_tool_uninstaller}{version}",
            Platform::Wine, "", "i", "n", "se", "1", 1, None, None
        ),
        Err(TemplateError::UnusedBinding(6))
    );
}

#[test]
fn spellchecker_script() {
    let t = "{app_id} {app_name} {version} {build} [{sign_tool}] [{sign_tool_uninstaller}]";
    assert_eq!(
        make_nsi_spellchecker(t, Platform::Windows, "", "u", "WinDivvun", "2.0", 77, None, None).unwrap(),
        "u WinDivvun 2.0 77 [rem] [rem]"
    );
    assert_eq!(
        make_nsi_spellchecker("{bcp47code}", Platform::Windows, "", "u", "W", "2.0", 77, None, None),
        Err(TemplateError::UnknownName(0))
    );
    assert_eq!(
        make_nsi_spellchecker("{app_id} {app_name} {version} {build}", Platform::Windows, "", "u", "W", "2.0", 77, None, None),
        Err(TemplateError::UnusedBinding(4))
    );
}

#[test]
fn installer_names() {
    assert_eq!(speller_installer_name("sma-Latn-NO", "1.0.0"), "sma-Latn-NO-1.0.0.exe");
    assert_eq!(spellchecker_installer_name("3.4"), "windivvun-3.4.exe");
}

#[test]
fn file_names() {
    assert_eq!(SCRIPT_FILE, "installer.nsi");
    assert_eq!(SPELLER_FILE, "speller.zhfst");
    assert_eq!(SPELLCHECKER_FILE, "windivvun.dll");
    assert_eq!(BUILT_INSTALLER_FILE, "installer.exe");
}

#[test]
fn nsis_run_through_wine() {
    let inv = nsis_invocation(Platform::Wine, "/nsis/makensis.exe", "out", "Z:\\w\\installer.nsi");
    assert_eq!(inv.program, "wine");
    assert_eq!(inv.dir, "out");
    assert_eq!(
        inv.args,
        strings(&["/nsis/makensis.exe", "/XOutFile out\\installer.exe", "Z:\\w\\installer.nsi"])
    );
}

#[test]
fn nsis_run_on_windows() {
    let inv = nsis_invocation(Platform::Windows, "C:\\NSIS\\makensis.exe", "C:\\out", "C:\\out\\installer.nsi");
    assert_eq!(inv.program, "C:\\NSIS\\makensis.exe");
    assert_eq!(inv.dir, "C:\\out");
    assert_eq!(inv.args, strings(&["/XOutFile C:\\out\\installer.exe", "C:\\out\\installer.nsi"]));
}

#[test]
fn nsis_search_dirs_by_platform() {
    assert_eq!(
        nsis_search_dirs(Platform::Windows),
        strings(&["C:\\Program Files\\NSIS", "C:\\Program Files (x86)\\NSIS"])
    );
    assert!(nsis_search_dirs(Platform::Wine).is_empty());
}

const CHECKER_TEMPLATE: &str = "{app_id}|{app_name}|{version}|{build}|{sign_tool}|{sign_tool_uninstaller}";

fn build(bcp47code: Option<&str>, template: &str, keep_script: bool) -> WinBuild {
    WinBuild {
        platform: Platform::Wine,
        template: template.to_string(),
        output_dir: "/out".to_string(),
        app_id: "id".to_string(),
        app_name: "Divvun".to_string(),
        version: "1.0".to_string(),
        build: 3,
        bcp47code: bcp47code.map(|l| l.to_string()),
        pfx_path: None,
        sign_pfx_password: None,
        osslsigncode_path: String::new(),
        keep_script,
    }
}

/// An action as plain text, to compare runs.
fn describe(a: &WinAction) -> String {
    match a {
        WinAction::CreateOutputDir => "mkdir".to_string(),
        WinAction::CopyPayload(f) => format!("copy {}", f),
        WinAction::WriteScript(s) => format!("write {}", s),
        WinAction::FindNsis => "find nsis".to_string(),
        WinAction::LocateScript => "locate".to_string(),
        WinAction::Run(i) => format!("run {} {} in {}", i.program, i.args.join(" "), i.dir),
        WinAction::RemoveFile(f) => format!("rm {}", f),
        WinAction::Rename(a, b) => format!("mv {} {}", a, b),
        WinAction::InvalidTemplate(e) => format!("invalid {:?}", e),
        WinAction::Report(m) => format!("report {}", m),
        WinAction::Abort(m) => format!("abort {}", m),
        WinAction::Finish => "finish".to_string(),
    }
}

/// Runs a build with `respond` standing for the outside world, and gives
/// the actions in order.
fn run(c: &WinBuild, respond: impl Fn(&WinAction) -> WinEvent) -> Vec<String> {
    let mut phase = WinPhase::Start;
    let mut event = WinEvent::Begin;
    let mut seen = Vec::new();
    for _ in 0..32 {
        let (next, action) = windows_build_step(c, phase, event);
        seen.push(describe(&action));
        if matches!(next, WinPhase::Finished) {
            return seen;
        }
        event = respond(&action);
        phase = next;
    }
    panic!("the build did not end: {:?}", seen);
}

fn world(nsis: bool, nsis_ok: bool) -> impl Fn(&WinAction) -> WinEvent {
    move |a: &WinAction| match a {
        WinAction::FindNsis => {
            if nsis {
                WinEvent::NsisFound("/nsis/makensis.exe".to_string())
            } else {
                WinEvent::NsisMissing
            }
        }
        WinAction::LocateScript => WinEvent::ScriptLocated(Some("/out/installer.nsi".to_string())),
        WinAction::Run(_) => WinEvent::NsisExited(nsis_ok, if nsis_ok { String::new() } else { "oops".to_string() }),
        _ => WinEvent::Done,
    }
}

#[test]
fn speller_build_steps() {
    let c = build(Some("se"), SPELLER_TEMPLATE, false);
    assert_eq!(
        run(&c, world(true, true)),
        strings(&[
            "mkdir",
            "copy speller.zhfst",
            "write !define APP_ID \"id\"\n!define NAME \"Divvun (se)\"\n!define VERSION 1.0.3\n!finalize 'rem'\n!uninstfinalize 'rem'\nFunction .onInit { }\n",
            "find nsis",
            "locate",
            "run wine /nsis/makensis.exe /XOutFile /out\\installer.exe Z:\\out\\installer.nsi in /out",
            "rm installer.nsi",
            "rm speller.zhfst",
            "mv installer.exe se-1.0.exe",
            "finish",
        ])
    );
}

#[test]
fn spellchecker_build_looks_for_nsis_first() {
    let c = build(None, CHECKER_TEMPLATE, false);
    assert_eq!(
        run(&c, world(true, true)),
        strings(&[
            "mkdir",
            "find nsis",
            "copy windivvun.dll",
            "write id|Divvun|1.0|3|rem|rem",
            "locate",
            "run wine /nsis/makensis.exe /XOutFile /out\\installer.exe Z:\\out\\installer.nsi in /out",
            "rm installer.nsi",
            "rm windivvun.dll",
            "mv installer.exe windivvun-1.0.exe",
            "finish",
        ])
    );
}

#[test]
fn missing_nsis_is_reported() {
    let c = build(None, CHECKER_TEMPLATE, false);
    assert_eq!(
        run(&c, world(false, true)),
        strings(&["mkdir", "find nsis", "report NSIS 3 not found, and NSIS_PATH not set."])
    );
    let c = build(Some("se"), SPELLER_TEMPLATE, false);
    let seen = run(&c, world(false, true));
    assert_eq!(seen.len(), 5);
    assert_eq!(seen[4], "report NSIS 3 not found, and NSIS_PATH not set.");
}

#[test]
fn failed_nsis_is_reported_and_not_renamed() {
    let c = build(Some("se"), SPELLER_TEMPLATE, false);
    let seen = run(&c, world(true, false));
    assert_eq!(
        seen[6..].to_vec(),
        strings(&["rm installer.nsi", "rm speller.zhfst", "report NSIS failed!\noops"])
    );
}

#[test]
fn kept_script_is_not_removed() {
    let c = build(Some("se"), SPELLER_TEMPLATE, true);
    let seen = run(&c, world(true, true));
    assert_eq!(
        seen[6..].to_vec(),
        strings(&["rm speller.zhfst", "mv installer.exe se-1.0.exe", "finish"])
    );
}

#[test]
fn invalid_template_ends_the_build() {
    let c = build(Some("se"), "{app_id}", false);
    assert_eq!(
        run(&c, world(true, true)),
        strings(&["mkdir", "copy speller.zhfst", "invalid UnusedBinding(1)"])
    );
}

#[test]
fn script_without_a_path_aborts() {
    let c = build(None, CHECKER_TEMPLATE, false);
    let seen = run(&c, |a: &WinAction| match a {
        WinAction::FindNsis => WinEvent::NsisFound("m".to_string()),
        WinAction::LocateScript => WinEvent::ScriptLocated(None),
        _ => WinEvent::Done,
    });
    assert_eq!(seen.last().unwrap(), "abort valid path to installer");
}

#[test]
fn windows_build_runs_makensis_directly() {
    let mut c = build(Some("se"), SPELLER_TEMPLATE, false);
    c.platform = Platform::Windows;
    c.output_dir = "C:\\out".to_string();
    let seen = run(&c, |a: &WinAction| match a {
        WinAction::FindNsis => WinEvent::NsisFound("C:\\NSIS\\makensis.exe".to_string()),
        WinAction::LocateScript => WinEvent::ScriptLocated(Some("\\\\?\\C:\\out\\installer.nsi".to_string())),
        WinAction::Run(_) => WinEvent::NsisExited(true, String::new()),
        _ => WinEvent::Done,
    });
    assert_eq!(
        seen[5],
        "run C:\\NSIS\\makensis.exe /XOutFile C:\\out\\installer.exe C:\\out\\installer.nsi in C:\\out"
    );
}

#[test]
fn unexpected_event_ends_the_build() {
    let c = build(None, CHECKER_TEMPLATE, false);
    let (phase, action) = windows_build_step(&c, WinPhase::Running, WinEvent::Done);
    assert!(matches!(phase, WinPhase::Finished));
    assert!(matches!(action, WinAction::Finish));
}
