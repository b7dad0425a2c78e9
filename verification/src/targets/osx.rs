//! macOS installers: a spell-checker service bundle for MacDivvun, wrapped
//! into a component package and a product package.

use vstd::prelude::*;
use crate::text::{chars_of, decimal, push_decimal, push_str, string_from_chars};
use super::{
    args_view, invokes, is_copy_input, is_create_dir, is_remove_dir, is_run, is_write_file, join,
    join_path, lemma_join_inside, owned, Invocation, Step,
};

verus! {

/// The spell-checking service that the bundles extend.
pub const APP_NAME: &'static str = "MacDivvun";

/// The identifier under which the bundles and packages are made.
pub const PACKAGE: &'static str = "no.divvun.MacDivvun";

/// A fixed stretch of the bundle property list.
pub const PLIST_0: &'static str = "<?xml version=\"1.0\" encoding=\"UTF-8\"?>\n<!DOCTYPE plist PUBLIC \"-//Apple//DTD PLIST 1.0//EN\" \"http://www.apple.com/DTDs/PropertyList-1.0.dtd\">\n<plist version=\"1.0\">\n<dict>\n\t<key>CFBundleDevelopmentRegion</key>\n\t<string>en</string>\n\t<key>CFBundleIdentifier</key>\n\t<string>";

/// A fixed stretch of the bundle property list.
pub const PLIST_1: &'static str = ".";

/// A fixed stretch of the bundle property list.
pub const PLIST_2: &'static str = "</string>\n\t<key>CFBundleName</key>\n\t<string>";

/// A fixed stretch of the bundle property list.
pub const PLIST_3: &'static str = "</string>\n\t<key>CFBundlePackageType</key>\n\t<string>BNDL</string>\n\t<key>CFBundleShortVersionString</key>\n\t<string>";

/// A fixed stretch of the bundle property list.
pub const PLIST_4: &'static str = "</string>\n\t<key>CFBundleSupportedPlatforms</key>\n\t<array>\n\t\t<string>MacOSX</string>\n\t</array>\n\t<key>CFBundleVersion</key>\n\t<string>";

/// A fixed stretch of the bundle property list.
pub const PLIST_5: &'static str = "</string>\n\t<key>NSHumanReadableCopyright</key>\n\t<string>See license file.</string>\n\t<key>NSServices</key>\n\t<array>\n\t\t<dict>\n\t\t\t<key>NSExecutable</key>\n\t\t\t<string>";

/// A fixed stretch of the bundle property list.
pub const PLIST_6: &'static str = "</string>\n\t\t\t<key>NSLanguages</key>\n\t\t\t<array>\n\t\t\t\t<string>";

/// A fixed stretch of the bundle property list.
pub const PLIST_7: &'static str = "</string>\n\t\t\t</array>\n\t\t\t<key>NSMenuItem</key>\n\t\t\t<dict/>\n\t\t\t<key>NSPortName</key>\n\t\t\t<string>";

/// A fixed stretch of the bundle property list.
pub const PLIST_8: &'static str = "</string>\n\t\t\t<key>NSSpellChecker</key>\n\t\t\t<string>";

/// A fixed stretch of the bundle property list.
pub const PLIST_9: &'static str = "</string>\n\t\t</dict>\n\t</array>\n</dict>\n</plist>\n";

/// The property list of the spell-checker bundle for `bcp47code`: the
/// bundle identifier is `package.bcp47code`, the short version string
/// `version`, the bundle version the decimal numeral of `build`, and the
/// service `app_name` checks spelling in `bcp47code`.
pub open spec fn plist_text(
    bcp47code: Seq<char>,
    version: Seq<char>,
    build: nat,
    app_name: Seq<char>,
    package: Seq<char>,
) -> Seq<char> {
    PLIST_0@ + package + PLIST_1@ + bcp47code + PLIST_2@ + bcp47code + PLIST_3@ + version + PLIST_4@ + decimal(build) + PLIST_5@ + app_name + PLIST_6@ + bcp47code + PLIST_7@ + app_name + PLIST_8@ + app_name + PLIST_9@
}

/// The `Info.plist` of the spell-checker bundle for `bcp47code`.
pub fn make_plist(bcp47code: &str, version: &str, build: u64, app_name: &str, package: &str) -> (r:
    String)
    ensures
        r@ == plist_text(bcp47code@, version@, build as nat, app_name@, package@),
{
    let mut out = chars_of(PLIST_0);
    push_str(&mut out, package);
    push_str(&mut out, PLIST_1);
    push_str(&mut out, bcp47code);
    push_str(&mut out, PLIST_2);
    push_str(&mut out, bcp47code);
    push_str(&mut out, PLIST_3);
    push_str(&mut out, version);
    push_str(&mut out, PLIST_4);
    push_decimal(&mut out, build);
    push_str(&mut out, PLIST_5);
    push_str(&mut out, app_name);
    push_str(&mut out, PLIST_6);
    push_str(&mut out, bcp47code);
    push_str(&mut out, PLIST_7);
    push_str(&mut out, app_name);
    push_str(&mut out, PLIST_8);
    push_str(&mut out, app_name);
    push_str(&mut out, PLIST_9);
    string_from_chars(out.as_slice())
}

/// A fixed stretch of the installer distribution file.
pub const DISTRIBUTION_0: &'static str = "<?xml version=\"1.0\" encoding=\"UTF-8\"?>\n<installer-gui-script minSpecVersion=\"2\">\n\t<title>";

/// A fixed stretch of the installer distribution file.
pub const DISTRIBUTION_1: &'static str = "</title>\n\t<options customize=\"never\" rootVolumeOnly=\"true\"/>\n\t<choices-outline>\n    \t<line choice=\"default\">\n      \t\t<line choice=\"";

/// A fixed stretch of the installer distribution file.
pub const DISTRIBUTION_2: &'static str = "\"/>\n    \t</line>\n  \t</choices-outline>\n\n\t<choice id=\"default\" />\n    <choice id=\"";

/// A fixed stretch of the installer distribution file.
pub const DISTRIBUTION_3: &'static str = "\" visible=\"false\">\n\t\t<pkg-ref id=\"";

/// A fixed stretch of the installer distribution file.
pub const DISTRIBUTION_4: &'static str = "\"/>\n\t</choice>\n\n\t<pkg-ref id=\"";

/// A fixed stretch of the installer distribution file.
pub const DISTRIBUTION_5: &'static str = "\" onConclusion=\"RequireRestart\" version=\"0\" auth=\"root\">";

/// A fixed stretch of the installer distribution file.
pub const DISTRIBUTION_6: &'static str = "</pkg-ref>\n</installer>";

/// The distribution file of the product package: titled `app_name`, with
/// the single choice `package`, which installs `component_package`.
pub open spec fn distribution_text(
    app_name: Seq<char>,
    package: Seq<char>,
    component_package: Seq<char>,
) -> Seq<char> {
    DISTRIBUTION_0@ + app_name + DISTRIBUTION_1@ + package + DISTRIBUTION_2@ + package + DISTRIBUTION_3@ + package + DISTRIBUTION_4@ + package + DISTRIBUTION_5@ + component_package + DISTRIBUTION_6@
}

/// The `distribution.xml` that `productbuild` is given.
pub fn make_distribution(app_name: &str, package: &str, component_package: &str) -> (r: String)
    ensures
        r@ == distribution_text(app_name@, package@, component_package@),
{
    let mut out = chars_of(DISTRIBUTION_0);
    push_str(&mut out, app_name);
    push_str(&mut out, DISTRIBUTION_1);
    push_str(&mut out, package);
    push_str(&mut out, DISTRIBUTION_2);
    push_str(&mut out, package);
    push_str(&mut out, DISTRIBUTION_3);
    push_str(&mut out, package);
    push_str(&mut out, DISTRIBUTION_4);
    push_str(&mut out, package);
    push_str(&mut out, DISTRIBUTION_5);
    push_str(&mut out, component_package);
    push_str(&mut out, DISTRIBUTION_6);
    string_from_chars(out.as_slice())
}

/// `package.bcp47code.bundle`: the directory name of the bundle.
pub open spec fn bundle_name_of(package: Seq<char>, bcp47code: Seq<char>) -> Seq<char> {
    package + "."@ + bcp47code + ".bundle"@
}

/// The bundle directory is named after the bundle identifier that its
/// property list declares: the identifier stands right after the fixed
/// opening of the property list, and the directory name is the identifier
/// followed by `.bundle`.
pub proof fn lemma_bundle_named_after_identifier(
    bcp47code: Seq<char>,
    version: Seq<char>,
    build: nat,
    app_name: Seq<char>,
    package: Seq<char>,
)
    ensures
        ({
            let id = package + "."@ + bcp47code;
            let start = PLIST_0@.len() as int;
            &&& plist_text(bcp47code, version, build, app_name, package).subrange(
                start,
                start + id.len(),
            ) == id
            &&& bundle_name_of(package, bcp47code) == id + ".bundle"@
        }),
{
    let id = package + "."@ + bcp47code;
    let start = PLIST_0@.len() as int;
    let t = plist_text(bcp47code, version, build, app_name, package);
    assert(PLIST_1@ == "."@);
    assert(t.subrange(start, start + id.len()) =~= id);
}

/// Every file of a bundle lies inside the bundle directory: the resources
/// directory, the speller and the property list all have the bundle
/// directory as a prefix.
pub proof fn lemma_bundle_files_inside(bundle_dir: Seq<char>)
    ensures
        ({
            let contents = join_path(bundle_dir, "Contents"@);
            let resources = join_path(contents, "Resources"@);
            let n = bundle_dir.len() as int;
            &&& resources.len() >= n && resources.take(n) == bundle_dir
            &&& join_path(resources, "speller.zhfst"@).len() >= n
            &&& join_path(resources, "speller.zhfst"@).take(n) == bundle_dir
            &&& join_path(contents, "Info.plist"@).len() >= n
            &&& join_path(contents, "Info.plist"@).take(n) == bundle_dir
        }),
{
    reveal_strlit("Contents");
    reveal_strlit("Resources");
    reveal_strlit("speller.zhfst");
    reveal_strlit("Info.plist");
    let contents = join_path(bundle_dir, "Contents"@);
    let resources = join_path(contents, "Resources"@);
    let n = bundle_dir.len() as int;
    lemma_join_inside(bundle_dir, "Contents"@);
    lemma_join_inside(contents, "Resources"@);
    lemma_join_inside(resources, "speller.zhfst"@);
    lemma_join_inside(contents, "Info.plist"@);
    assert(resources.take(n) =~= resources.take(contents.len() as int).take(n));
    let sp = join_path(resources, "speller.zhfst"@);
    assert(sp.take(n) =~= sp.take(resources.len() as int).take(n));
    let pl = join_path(contents, "Info.plist"@);
    assert(pl.take(n) =~= pl.take(contents.len() as int).take(n));
}

/// `Contents/Resources` in the bundle `bundle_dir`.
pub open spec fn resources_dir_of(bundle_dir: Seq<char>) -> Seq<char> {
    join_path(join_path(bundle_dir, "Contents"@), "Resources"@)
}

/// Where the speller archive goes in the bundle `bundle_dir`.
pub open spec fn speller_path_of(bundle_dir: Seq<char>) -> Seq<char> {
    join_path(resources_dir_of(bundle_dir), "speller.zhfst"@)
}

/// Where the property list goes in the bundle `bundle_dir`.
pub open spec fn plist_path_of(bundle_dir: Seq<char>) -> Seq<char> {
    join_path(join_path(bundle_dir, "Contents"@), "Info.plist"@)
}

/// The `pkgbuild` arguments that make `pkg_name` out of `bundle_dir`.
pub open spec fn pkgbuild_args(bundle_dir: Seq<char>, version: Seq<char>, pkg_name: Seq<char>) -> Seq<
    Seq<char>,
> {
    seq![
        "--component"@,
        bundle_dir,
        "--ownership"@,
        "recommended"@,
        "--install-location"@,
        "/Library/Services"@,
        "--version"@,
        version,
        pkg_name,
    ]
}

/// The `productbuild` arguments that make `pkg_name` by `distribution`.
pub open spec fn productbuild_args(
    distribution: Seq<char>,
    version: Seq<char>,
    pkg_name: Seq<char>,
) -> Seq<Seq<char>> {
    seq!["--distribution"@, distribution, "--version"@, version, pkg_name]
}

/// The steps that make the bundle `bundle_name` under `output_dir`, with
/// the property list for the speller of `bcp47code`: create the output
/// directory, remove any old bundle, create `Contents/Resources`, copy the
/// speller archive in, and write `Contents/Info.plist`.
pub fn create_bundle(
    bundle_name: &str,
    package: &str,
    bcp47code: &str,
    version: &str,
    build: u64,
    output_dir: &str,
) -> (r: Vec<Step>)
    ensures
        ({
            let bundle = join_path(output_dir@, bundle_name@);
            &&& r@.len() == 5
            &&& is_create_dir(r@[0], output_dir@)
            &&& is_remove_dir(r@[1], bundle)
            &&& is_create_dir(r@[2], resources_dir_of(bundle))
            &&& is_copy_input(r@[3], speller_path_of(bundle))
            &&& is_write_file(
                r@[4],
                plist_path_of(bundle),
                plist_text(bcp47code@, version@, build as nat, APP_NAME@, package@),
            )
        }),
{
    let bundle_dir = join(output_dir, bundle_name);
    let content_path = join(bundle_dir.as_str(), "Contents");
    let resources_dir = join(content_path.as_str(), "Resources");
    let speller_path = join(resources_dir.as_str(), "speller.zhfst");
    let plist_path = join(content_path.as_str(), "Info.plist");
    let plist = make_plist(bcp47code, version, build, APP_NAME, package);
    let mut steps: Vec<Step> = Vec::new();
    steps.push(Step::CreateDirAll(owned(output_dir)));
    steps.push(Step::RemoveDirAll(bundle_dir));
    steps.push(Step::CreateDirAll(resources_dir));
    steps.push(Step::CopyInput(speller_path));
    steps.push(Step::WriteFile(plist_path, plist));
    steps
}

/// The `pkgbuild` run, in `output_dir`, that makes the component package
/// `package.pkg` out of the bundle at `bundle_dir`, to be installed into
/// `/Library/Services`, and the name of that package.
pub fn create_component_package(
    output_dir: &str,
    bundle_dir: &str,
    package: &str,
    version: &str,
) -> (r: (Invocation, String))
    ensures
        r.1@ == package@ + ".pkg"@,
        invokes(r.0, "pkgbuild"@, pkgbuild_args(bundle_dir@, version@, r.1@), output_dir@),
{
    let mut name = chars_of(package);
    push_str(&mut name, ".pkg");
    let pkg_name = string_from_chars(name.as_slice());
    let mut args: Vec<String> = Vec::new();
    args.push(owned("--component"));
    args.push(owned(bundle_dir));
    args.push(owned("--ownership"));
    args.push(owned("recommended"));
    args.push(owned("--install-location"));
    args.push(owned("/Library/Services"));
    args.push(owned("--version"));
    args.push(owned(version));
    args.push(pkg_name.clone());
    let invocation = Invocation { program: owned("pkgbuild"), args, dir: owned(output_dir) };
    assert(args_view(invocation.args@) =~= pkgbuild_args(bundle_dir@, version@, pkg_name@));
    (invocation, pkg_name)
}

/// The steps that turn the bundle at `bundle_dir` into the unsigned product
/// package of `package`, titled `app_name`, in `output_dir`: run
/// `pkgbuild`, write `distribution.xml`, run `productbuild`.
pub fn create_installer_from_bundle(
    app_name: &str,
    bundle_dir: &str,
    version: &str,
    package: &str,
    output_dir: &str,
) -> (r: Vec<Step>)
    ensures
        ({
            let component = package@ + ".pkg"@;
            let distribution = join_path(output_dir@, "distribution.xml"@);
            &&& r@.len() == 3
            &&& is_run(
                r@[0],
                "pkgbuild"@,
                pkgbuild_args(bundle_dir@, version@, component),
                output_dir@,
            )
            &&& is_write_file(
                r@[1],
                distribution,
                distribution_text(app_name@, package@, component),
            )
            &&& is_run(
                r@[2],
                "productbuild"@,
                productbuild_args(distribution, version@, package@ + ".unsigned.pkg"@),
                output_dir@,
            )
        }),
{
    let (component, component_package) = create_component_package(
        output_dir,
        bundle_dir,
        package,
        version,
    );
    let distribution_path = join(output_dir, "distribution.xml");
    let distribution = make_distribution(app_name, package, component_package.as_str());
    let mut name = chars_of(package);
    push_str(&mut name, ".unsigned.pkg");
    let product_package = string_from_chars(name.as_slice());
    let mut args: Vec<String> = Vec::new();
    args.push(owned("--distribution"));
    args.push(distribution_path.clone());
    args.push(owned("--version"));
    args.push(owned(version));
    args.push(product_package);
    let product = Invocation { program: owned("productbuild"), args, dir: owned(output_dir) };
    assert(args_view(product.args@) =~= productbuild_args(
        distribution_path@,
        version@,
        package@ + ".unsigned.pkg"@,
    ));
    let mut steps: Vec<Step> = Vec::new();
    steps.push(Step::Run(component));
    steps.push(Step::WriteFile(distribution_path, distribution));
    steps.push(Step::Run(product));
    steps
}

/// The steps, in order, that make the macOS installer of the speller for
/// `bcp47code`, version `version`, build `build`, in `output_dir`: the
/// bundle `no.divvun.MacDivvun.<bcp47code>.bundle` for the MacDivvun
/// service (output directory, old bundle removed, `Contents/Resources`,
/// speller archive, property list), then `pkgbuild`, the distribution file
/// and `productbuild`.
pub fn create_installer(bcp47code: &str, version: &str, build: u64, output_dir: &str) -> (r: Vec<
    Step,
>)
    ensures
        ({
            let out = output_dir@;
            let bundle = join_path(out, bundle_name_of(PACKAGE@, bcp47code@));
            let component = PACKAGE@ + ".pkg"@;
            let distribution = join_path(out, "distribution.xml"@);
            &&& r@.len() == 8
            &&& is_create_dir(r@[0], out)
            &&& is_remove_dir(r@[1], bundle)
            &&& is_create_dir(r@[2], resources_dir_of(bundle))
            &&& is_copy_input(r@[3], speller_path_of(bundle))
            &&& is_write_file(
                r@[4],
                plist_path_of(bundle),
                plist_text(bcp47code@, version@, build as nat, APP_NAME@, PACKAGE@),
            )
            &&& is_run(r@[5], "pkgbuild"@, pkgbuild_args(bundle, version@, component), out)
            &&& is_write_file(
                r@[6],
                distribution,
                distribution_text(APP_NAME@, PACKAGE@, component),
            )
            &&& is_run(
                r@[7],
                "productbuild"@,
                productbuild_args(distribution, version@, PACKAGE@ + ".unsigned.pkg"@),
                out,
            )
        }),
{
    let mut name = chars_of(PACKAGE);
    push_str(&mut name, ".");
    push_str(&mut name, bcp47code);
    push_str(&mut name, ".bundle");
    let bundle_name = string_from_chars(name.as_slice());
    let bundle_dir = join(output_dir, bundle_name.as_str());
    let mut steps = create_bundle(bundle_name.as_str(), PACKAGE, bcp47code, version, build, output_dir);
    let mut rest = create_installer_from_bundle(
        APP_NAME,
        bundle_dir.as_str(),
        version,
        PACKAGE,
        output_dir,
    );
    steps.append(&mut rest);
    steps
}

} // verus!
