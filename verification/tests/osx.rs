use divvun_bundler::targets::{join, Invocation, Step};
use divvun_bundler::targets::osx::{
    create_bundle, create_component_package, create_installer, create_installer_from_bundle,
    make_distribution, make_plist, APP_NAME, PACKAGE,
};

fn expected_plist(bcp47code: &str, version: &str, build: u64, app_name: &str, package: &str) -> String {
    format!(r#"<?xml version="1.0" encoding="UTF-8"?>
<!DOCTYPE plist PUBLIC "-//Apple//DTD PLIST 1.0//EN" "http://www.apple.com/DTDs/PropertyList-1.0.dtd">
<plist version="1.0">
<dict>
	<key>CFBundleDevelopmentRegion</key>
	<string>en</string>
	<key>CFBundleIdentifier</key>
	<string>{package}.{bcp47code}</string>
	<key>CFBundleName</key>
	<string>{bcp47code}</string>
	<key>CFBundlePackageType</key>
	<string>BNDL</string>
	<key>CFBundleShortVersionString</key>
	<string>{version}</string>
	<key>CFBundleSupportedPlatforms</key>
	<array>
		<string>MacOSX</string>
	</array>
	<key>CFBundleVersion</key>
	<string>{build}</string>
	<key>NSHumanReadableCopyright</key>
	<string>See license file.</string>
	<key>NSServices</key>
	<array>
		<dict>
			<key>NSExecutable</key>
			<string>{app_name}</string>
			<key>NSLanguages</key>
			<array>
				<string>{bcp47code}</string>
			</array>
			<key>NSMenuItem</key>
			<dict/>
			<key>NSPortName</key>
			<string>{app_name}</string>
			<key>NSSpellChecker</key>
			<string>{app_name}</string>
		</dict>
	</array>
</dict>
</plist>
"#, package = package, bcp47code = bcp47code, app_name = app_name, version = version, build = build)
}

fn expected_distribution(app_name: &str, package: &str, component_package: &str) -> String {
    format!(r#"<?xml version="1.0" encoding="UTF-8"?>
<installer-gui-script minSpecVersion="2">
	<title>{app_name}</title>
	<options customize="never" rootVolumeOnly="true"/>
	<choices-outline>
    	<line choice="default">
      		<line choice="{package}"/>
    	</line>
  	</choices-outline>

	<choice id="default" />
    <choice id="{package}" visible="false">
		<pkg-ref id="{package}"/>
	</choice>

	<pkg-ref id="{package}" onConclusion="RequireRestart" version="0" auth="root">{component_package}</pkg-ref>
</installer>"#, app_name = app_name, package = package, component_package = component_package)
}

fn strings(v: &[&str]) -> Vec<String> {
    v.iter().map(|s| s.to_string()).collect()
}

#[test]
fn plist_matches_the_property_list_layout() {
    assert_eq!(
        make_plist("sma-Latn-NO", "1.2.3", 42, "MacDivvun", "no.divvun.MacDivvun"),
        expected_plist("sma-Latn-NO", "1.2.3", 42, "MacDivvun", "no.divvun.MacDivvun")
    );
}

#[test]
fn plist_with_large_build_and_unicode() {
    assert_eq!(
        make_plist("sé", "", u64::MAX, "Åpp", "p"),
        expected_plist("sé", "", u64::MAX, "Åpp", "p")
    );
}

#[test]
fn plist_declares_the_bundle_identifier() {
    let plist = make_plist("se", "1.0", 1, APP_NAME, PACKAGE);
    assert!(plist.contains("<string>no.divvun.MacDivvun.se</string>"));
    assert!(plist.contains("<key>CFBundleVersion</key>\n\t<string>1</string>"));
}

#[test]
fn distribution_matches_the_layout() {
    assert_eq!(
        make_distribution("MacDivvun", "no.divvun.MacDivvun", "no.divvun.MacDivvun.pkg"),
        expected_distribution("MacDivvun", "no.divvun.MacDivvun", "no.divvun.MacDivvun.pkg")
    );
}

#[test]
fn join_adds_one_separator() {
    assert_eq!(join("out", "a"), "out/a");
    assert_eq!(join("out/", "a"), "out/a");
    assert_eq!(join("", "a"), "a");
    assert_eq!(join("out", "/abs"), "/abs");
    assert_eq!(join(".", "x.bundle"), "./x.bundle");
}

/// A step as plain text, to compare plans.
fn describe(step: &Step) -> String {
    match step {
        Step::CreateDirAll(d) => format!("mkdir {}", d),
        Step::RemoveDirAll(d) => format!("rmdir {}", d),
        Step::CopyInput(p) => format!("copy {}", p),
        Step::WriteFile(p, c) => format!("write {} ({} bytes)", p, c.len()),
        Step::Run(i) => format!("run {} {} in {}", i.program, i.args.join(" "), i.dir),
    }
}

fn written(step: &Step) -> &str {
    match step {
        Step::WriteFile(_, c) => c,
        _ => panic!("not a write: {}", describe(step)),
    }
}

fn invocation(step: &Step) -> &Invocation {
    match step {
        Step::Run(i) => i,
        _ => panic!("not a run: {}", describe(step)),
    }
}

#[test]
fn bundle_layout() {
    let steps = create_bundle("no.divvun.MacDivvun.se.bundle", PACKAGE, "se", "1.0", 7, "out");
    let plist = expected_plist("se", "1.0", 7, "MacDivvun", PACKAGE);
    let described: Vec<String> = steps.iter().map(describe).collect();
    assert_eq!(
        described,
        strings(&[
            "mkdir out",
            "rmdir out/no.divvun.MacDivvun.se.bundle",
            "mkdir out/no.divvun.MacDivvun.se.bundle/Contents/Resources",
            "copy out/no.divvun.MacDivvun.se.bundle/Contents/Resources/speller.zhfst",
            &format!("write out/no.divvun.MacDivvun.se.bundle/Contents/Info.plist ({} bytes)", plist.len()),
        ])
    );
    assert_eq!(written(&steps[4]), plist);
}

#[test]
fn bundle_files_lie_inside_the_bundle() {
    let steps = create_bundle("x.bundle", "p", "se", "1", 1, "/tmp/o/");
    for step in &steps[1..] {
        let path = match step {
            Step::RemoveDirAll(p) | Step::CreateDirAll(p) | Step::CopyInput(p) => p,
            Step::WriteFile(p, _) => p,
            Step::Run(_) => panic!("no run in a bundle"),
        };
        assert!(path.starts_with("/tmp/o/x.bundle"), "{}", path);
    }
}

#[test]
fn component_package_command() {
    let (inv, name) = create_component_package("out", "out/b.bundle", "no.divvun.MacDivvun", "2.0");
    assert_eq!(name, "no.divvun.MacDivvun.pkg");
    assert_eq!(inv.program, "pkgbuild");
    assert_eq!(inv.dir, "out");
    assert_eq!(
        inv.args,
        strings(&[
            "--component",
            "out/b.bundle",
            "--ownership",
            "recommended",
            "--install-location",
            "/Library/Services",
            "--version",
            "2.0",
            "no.divvun.MacDivvun.pkg",
        ])
    );
}

#[test]
fn product_package_steps() {
    let steps = create_installer_from_bundle("MacDivvun", "o/b.bundle", "3.1", "pkg.id", "o");
    assert_eq!(steps.len(), 3);
    let component = invocation(&steps[0]);
    assert_eq!(component.program, "pkgbuild");
    assert_eq!(component.dir, "o");
    assert_eq!(component.args[1], "o/b.bundle");
    assert_eq!(component.args[8], "pkg.id.pkg");
    match &steps[1] {
        Step::WriteFile(p, c) => {
            assert_eq!(p, "o/distribution.xml");
            assert_eq!(c, &expected_distribution("MacDivvun", "pkg.id", "pkg.id.pkg"));
        }
        other => panic!("unexpected {}", describe(other)),
    }
    let product = invocation(&steps[2]);
    assert_eq!(product.program, "productbuild");
    assert_eq!(product.dir, "o");
    assert_eq!(
        product.args,
        strings(&["--distribution", "o/distribution.xml", "--version", "3.1", "pkg.id.unsigned.pkg"])
    );
}

#[test]
fn mac_installer_plan() {
    let steps = create_installer("sma-Latn-NO", "1.0.0", 12, ".");
    let bundle = "./no.divvun.MacDivvun.sma-Latn-NO.bundle";
    let plist = expected_plist("sma-Latn-NO", "1.0.0", 12, "MacDivvun", "no.divvun.MacDivvun");
    let distribution =
        expected_distribution("MacDivvun", "no.divvun.MacDivvun", "no.divvun.MacDivvun.pkg");
    let described: Vec<String> = steps.iter().map(describe).collect();
    assert_eq!(
        described,
        vec![
            "mkdir .".to_string(),
            format!("rmdir {}", bundle),
            format!("mkdir {}/Contents/Resources", bundle),
            format!("copy {}/Contents/Resources/speller.zhfst", bundle),
            format!("write {}/Contents/Info.plist ({} bytes)", bundle, plist.len()),
            format!(
                "run pkgbuild --component {} --ownership recommended --install-location /Library/Services --version 1.0.0 no.divvun.MacDivvun.pkg in .",
                bundle
            ),
            format!("write ./distribution.xml ({} bytes)", distribution.len()),
            "run productbuild --distribution ./distribution.xml --version 1.0.0 no.divvun.MacDivvun.unsigned.pkg in .".to_string(),
        ]
    );
    assert_eq!(written(&steps[4]), plist);
    assert_eq!(written(&steps[6]), distribution);
}

#[test]
fn the_bundle_is_written_before_pkgbuild_runs() {
    let steps = create_installer("se", "2", 3, "out");
    let pkgbuild = steps
        .iter()
        .position(|s| matches!(s, Step::Run(i) if i.program == "pkgbuild"))
        .unwrap();
    let productbuild = steps
        .iter()
        .position(|s| matches!(s, Step::Run(i) if i.program == "productbuild"))
        .unwrap();
    let plist = steps
        .iter()
        .position(|s| matches!(s, Step::WriteFile(p, _) if p.ends_with("Info.plist")))
        .unwrap();
    let speller = steps.iter().position(|s| matches!(s, Step::CopyInput(_))).unwrap();
    let distribution = steps
        .iter()
        .position(|s| matches!(s, Step::WriteFile(p, _) if p.ends_with("distribution.xml")))
        .unwrap();
    assert!(plist < pkgbuild && speller < pkgbuild);
    assert!(pkgbuild < distribution && distribution < productbuild);
}
