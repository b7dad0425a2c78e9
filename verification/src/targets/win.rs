//! Windows installers, built with NSIS: natively on Windows, and through
//! Wine everywhere else.

use vstd::prelude::*;
use vstd::string::StringSliceAdditionalSpecFns;
use vstd::utf8::*;
use crate::template::{
    bindings_view, contains_text, lemma_render_all_uses_every_value, lookup, lookup_from,
    render_all, render_template, rendered, Binding, TemplateError,
};
use crate::text::{chars_of, decimal, decimal_string, push_str, string_from_chars};
use super::{args_view, owned, Invocation};

verus! {

broadcast use {encode_utf8_valid_utf8, encode_utf8_decode_utf8};

/// Where the installer is built: on Windows itself, or on another system
/// that runs the Windows tools through Wine.
#[derive(Debug, Clone, Copy, PartialEq, Eq, Structural)]
pub enum Platform {
    Windows,
    Wine,
}

/// What `wine_path` makes of the absolute path `abs`: on Windows, the path
/// without its first four bytes (the `\\?\` prefix of a canonical path);
/// elsewhere, the path on Wine's `Z:` drive, with `\` for every `/`.
pub open spec fn wine_path_of(abs: Seq<char>, platform: Platform) -> Seq<char> {
    match platform {
        Platform::Windows => decode_utf8(encode_utf8(abs).subrange(4, encode_utf8(abs).len() as int)),
        Platform::Wine => "Z:"@ + abs.map_values(|c: char| if c == '/' { '\\' } else { c }),
    }
}

/// Off Windows, the tools see the path on the `Z:` drive: two characters
/// longer, every `/` turned into `\`, every other character kept as it is.
pub proof fn lemma_wine_path_keeps_characters(abs: Seq<char>)
    ensures
        ({
            let r = wine_path_of(abs, Platform::Wine);
            &&& r.len() == abs.len() + 2
            &&& r[0] == 'Z'
            &&& r[1] == ':'
            &&& forall|k: int|
                0 <= k < abs.len() ==> (abs[k] == '/' ==> #[trigger] r[k + 2] == '\\') && (abs[k]
                    != '/' ==> r[k + 2] == abs[k])
        }),
{
    reveal_strlit("Z:");
}

/// On Windows, the tools see the canonical path without its first four
/// bytes: the path is those bytes followed by what the tools see.
pub proof fn lemma_windows_path_drops_prefix(abs: Seq<char>)
    requires
        path_accepted(abs, Platform::Windows),
    ensures
        abs == decode_utf8(encode_utf8(abs).subrange(0, 4)) + wine_path_of(abs, Platform::Windows),
{
    decode_utf8_split(encode_utf8(abs), 4);
}

/// Whether `wine_path` can take `abs` on `platform`: on Windows, the first
/// four bytes of the path must end at a character boundary.
pub open spec fn wine_path_accepts(abs: &str, platform: Platform) -> bool {
    path_accepted(abs@, platform)
}

/// Whether `wine_path` can take a path with the characters `abs` on
/// `platform`.
pub open spec fn path_accepted(abs: Seq<char>, platform: Platform) -> bool {
    platform == Platform::Windows ==> is_char_boundary(encode_utf8(abs), 4)
}

/// The path that the Windows tools understand for the canonical absolute
/// path `abs_path`.
pub fn wine_path(abs_path: &str, platform: Platform) -> (r: String)
    requires
        wine_path_accepts(abs_path, platform),
    ensures
        r@ == wine_path_of(abs_path@, platform),
        platform == Platform::Windows ==> encode_utf8(r@) == abs_path.spec_bytes().subrange(
            4,
            abs_path.spec_bytes().len() as int,
        ),
        platform == Platform::Windows ==> abs_path@ == decode_utf8(
            abs_path.spec_bytes().subrange(0, 4),
        ) + r@,
        platform == Platform::Wine ==> forall|k: int| 0 <= k < r@.len() ==> #[trigger] r@[k] != '/',
{
    match platform {
        Platform::Windows => {
            let (_, rest) = abs_path.split_at(4);
            let r = rest.to_owned();
            let ghost bytes = abs_path.spec_bytes();
            assert(encode_utf8(r@) =~= bytes.subrange(4, bytes.len() as int));
            proof {
                decode_utf8_split(bytes, 4);
            }
            r
        },
        Platform::Wine => {
            let cs = chars_of(abs_path);
            let mut out = chars_of("Z:");
            let ghost mapped = abs_path@.map_values(|c: char| if c == '/' { '\\' } else { c });
            let mut i: usize = 0;
            while i < cs.len()
                invariant
                    cs@ == abs_path@,
                    i <= cs.len(),
                    mapped == abs_path@.map_values(|c: char| if c == '/' { '\\' } else { c }),
                    out@ == "Z:"@ + mapped.take(i as int),
                decreases cs.len() - i,
            {
                let c = cs[i];
                if c == '/' {
                    out.push('\\');
                } else {
                    out.push(c);
                }
                assert(mapped.take(i as int + 1) =~= mapped.take(i as int).push(mapped[i as int]));
                i += 1;
            }
            assert(mapped.take(cs.len() as int) =~= mapped);
            proof {
                reveal_strlit("Z:");
                assert forall|k: int| 0 <= k < out@.len() implies #[trigger] out@[k] != '/' by {
                    if k >= 2 {
                        assert(out@[k] == mapped[k - 2]);
                    }
                }
            }
            string_from_chars(out.as_slice())
        },
    }
}

/// The signing tool: `SignTool` on Windows, elsewhere `osslsigncode` at
/// `osslsigncode_path`, seen through Wine.
pub open spec fn signtool_path_of(platform: Platform, osslsigncode_path: Seq<char>) -> Seq<char> {
    match platform {
        Platform::Windows => "SignTool"@,
        Platform::Wine => wine_path_of(osslsigncode_path, Platform::Wine),
    }
}

/// The program that signs the built files; `osslsigncode_path` is the
/// canonical path of `osslsigncode`, of use only off Windows.
pub fn get_signtool_path(platform: Platform, osslsigncode_path: &str) -> (r: String)
    ensures
        r@ == signtool_path_of(platform, osslsigncode_path@),
{
    match platform {
        Platform::Windows => owned("SignTool"),
        Platform::Wine => wine_path(osslsigncode_path, Platform::Wine),
    }
}

/// The timestamping service that signatures are countersigned by.
pub open spec fn timestamp_url() -> Seq<char> {
    "http://timestamp.verisign.com/scripts/timstamp.dll"@
}

/// The command that signs `file_name` with the certificate `pfx_path`
/// (already a Windows path) and its password, naming the signed program
/// `app_name`: a `SignTool sign` call on Windows; elsewhere an
/// `osslsigncode` call that writes `signed` and moves it over `file_name`.
pub open spec fn signtool_command(
    platform: Platform,
    signtool_path: Seq<char>,
    app_name: Seq<char>,
    pfx_path: Seq<char>,
    password: Seq<char>,
    file_name: Seq<char>,
) -> Seq<char> {
    match platform {
        Platform::Windows => signtool_path + " sign /t "@ + timestamp_url() + " /f \""@ + pfx_path
            + "\" /p \""@ + password + "\" /d \""@ + app_name + "\" "@ + file_name,
        Platform::Wine => signtool_path + " sign -pkcs12 \""@ + pfx_path + "\" -pass \""@
            + password + "\" -n \""@ + app_name + "\" -t "@ + timestamp_url() + " -in "@
            + file_name + " -out signed && del "@ + file_name + " && move signed "@ + file_name,
    }
}

/// A sign command names the file it signs at its end and holds the
/// certificate path, the password and the program name. On Windows it
/// starts as a `SignTool sign` call that timestamps first; elsewhere as an
/// `osslsigncode` call (seen through Wine) with the certificate as a
/// PKCS#12 file.
pub proof fn lemma_sign_command_shape(
    platform: Platform,
    osslsigncode_path: Seq<char>,
    app_name: Seq<char>,
    pfx_path: Seq<char>,
    password: Seq<char>,
    file_name: Seq<char>,
)
    ensures
        ({
            let sp = signtool_path_of(platform, osslsigncode_path);
            let cmd = signtool_command(platform, sp, app_name, pfx_path, password, file_name);
            &&& cmd.len() >= file_name.len()
            &&& cmd.subrange(cmd.len() - file_name.len(), cmd.len() as int) == file_name
            &&& contains_text(cmd, pfx_path)
            &&& contains_text(cmd, password)
            &&& contains_text(cmd, app_name)
            &&& platform == Platform::Windows ==> sp == "SignTool"@ && cmd.take(
                (sp + " sign /t "@ + timestamp_url()).len() as int,
            ) == sp + " sign /t "@ + timestamp_url()
            &&& platform == Platform::Wine ==> sp == wine_path_of(osslsigncode_path, Platform::Wine)
                && cmd.take((sp + " sign -pkcs12 \""@).len() as int) == sp + " sign -pkcs12 \""@
        }),
{
    let sp = signtool_path_of(platform, osslsigncode_path);
    let cmd = signtool_command(platform, sp, app_name, pfx_path, password, file_name);
    match platform {
        Platform::Windows => {
            let head = sp + " sign /t "@ + timestamp_url();
            let x1 = head + " /f \""@;
            let x2 = x1 + pfx_path + "\" /p \""@;
            let x3 = x2 + password + "\" /d \""@;
            let x4 = x3 + app_name + "\" "@;
            assert(cmd == x4 + file_name);
            assert(cmd.subrange(x1.len() as int, (x1.len() + pfx_path.len()) as int) =~= pfx_path);
            assert(cmd.subrange(x2.len() as int, (x2.len() + password.len()) as int) =~= password);
            assert(cmd.subrange(x3.len() as int, (x3.len() + app_name.len()) as int) =~= app_name);
            assert(cmd.subrange(cmd.len() - file_name.len(), cmd.len() as int) =~= file_name);
            assert(cmd.take(head.len() as int) =~= head);
        },
        Platform::Wine => {
            let head = sp + " sign -pkcs12 \""@;
            let x2 = head + pfx_path + "\" -pass \""@;
            let x3 = x2 + password + "\" -n \""@;
            let x4 = x3 + app_name + "\" -t "@ + timestamp_url() + " -in "@ + file_name
                + " -out signed && del "@ + file_name + " && move signed "@;
            assert(cmd == x4 + file_name);
            assert(cmd.subrange(head.len() as int, (head.len() + pfx_path.len()) as int) =~= pfx_path);
            assert(cmd.subrange(x2.len() as int, (x2.len() + password.len()) as int) =~= password);
            assert(cmd.subrange(x3.len() as int, (x3.len() + app_name.len()) as int) =~= app_name);
            assert(cmd.subrange(cmd.len() - file_name.len(), cmd.len() as int) =~= file_name);
            assert(cmd.take(head.len() as int) =~= head);
        },
    }
}

/// The NSIS sign command for `file_name`, with the certificate at the
/// canonical path `pfx_path` and the password `sign_pfx_password`.
pub fn nsis_setup_signtool(
    platform: Platform,
    osslsigncode_path: &str,
    app_name: &str,
    pfx_path: &str,
    sign_pfx_password: &str,
    file_name: &str,
) -> (r: String)
    requires
        wine_path_accepts(pfx_path, platform),
    ensures
        r@ == signtool_command(
            platform,
            signtool_path_of(platform, osslsigncode_path@),
            app_name@,
            wine_path_of(pfx_path@, platform),
            sign_pfx_password@,
            file_name@,
        ),
{
    let signtool_path = get_signtool_path(platform, osslsigncode_path);
    let pfx_path_wine = wine_path(pfx_path, platform);
    let mut out = chars_of(signtool_path.as_str());
    match platform {
        Platform::Windows => {
            push_str(&mut out, " sign /t ");
            push_str(&mut out, "http://timestamp.verisign.com/scripts/timstamp.dll");
            push_str(&mut out, " /f \"");
            push_str(&mut out, pfx_path_wine.as_str());
            push_str(&mut out, "\" /p \"");
            push_str(&mut out, sign_pfx_password);
            push_str(&mut out, "\" /d \"");
            push_str(&mut out, app_name);
            push_str(&mut out, "\" ");
            push_str(&mut out, file_name);
        },
        Platform::Wine => {
            push_str(&mut out, " sign -pkcs12 \"");
            push_str(&mut out, pfx_path_wine.as_str());
            push_str(&mut out, "\" -pass \"");
            push_str(&mut out, sign_pfx_password);
            push_str(&mut out, "\" -n \"");
            push_str(&mut out, app_name);
            push_str(&mut out, "\" -t ");
            push_str(&mut out, "http://timestamp.verisign.com/scripts/timstamp.dll");
            push_str(&mut out, " -in ");
            push_str(&mut out, file_name);
            push_str(&mut out, " -out signed && del ");
            push_str(&mut out, file_name);
            push_str(&mut out, " && move signed ");
            push_str(&mut out, file_name);
        },
    }
    string_from_chars(out.as_slice())
}

/// The optional string as characters.
pub open spec fn opt_chars(o: Option<&str>) -> Option<Seq<char>> {
    match o {
        Some(s) => Some(s@),
        None => None,
    }
}

/// The command that the NSIS script runs on `file_name` once it is built:
/// the sign command when a certificate is given, `rem` (a comment, doing
/// nothing) when none is.
pub open spec fn sign_tool_for(
    platform: Platform,
    osslsigncode_path: Seq<char>,
    app_name: Seq<char>,
    pfx_path: Option<Seq<char>>,
    password: Option<Seq<char>>,
    file_name: Seq<char>,
) -> Seq<char> {
    match pfx_path {
        Some(p) => signtool_command(
            platform,
            signtool_path_of(platform, osslsigncode_path),
            app_name,
            wine_path_of(p, platform),
            password.unwrap(),
            file_name,
        ),
        None => "rem"@,
    }
}

/// What `make_nsi_speller` and `make_nsi_spellchecker` need of their
/// signing arguments: a password with every certificate, and a certificate
/// path that `wine_path` accepts.
pub open spec fn signing_ok(platform: Platform, pfx_path: Option<&str>, password: Option<&str>) -> bool {
    &&& pfx_path is Some ==> password is Some
    &&& pfx_path matches Some(p) ==> wine_path_accepts(p, platform)
}

/// The sign command for `file_name`, or `rem` when nothing is signed.
fn sign_tool(
    platform: Platform,
    osslsigncode_path: &str,
    app_name: &str,
    pfx_path: Option<&str>,
    sign_pfx_password: Option<&str>,
    file_name: &str,
) -> (r: String)
    requires
        signing_ok(platform, pfx_path, sign_pfx_password),
    ensures
        r@ == sign_tool_for(
            platform,
            osslsigncode_path@,
            app_name@,
            opt_chars(pfx_path),
            opt_chars(sign_pfx_password),
            file_name@,
        ),
{
    match pfx_path {
        Some(p) => nsis_setup_signtool(
            platform,
            osslsigncode_path,
            app_name,
            p,
            sign_pfx_password.unwrap(),
            file_name,
        ),
        None => owned("rem"),
    }
}

fn binding(name: &str, value: String) -> (r: Binding)
    ensures
        r.name@ == name@,
        r.value@ == value@,
{
    Binding { name: owned(name), value }
}

/// The values that the speller installer script is rendered with.
pub open spec fn speller_bindings(
    app_id: Seq<char>,
    app_name: Seq<char>,
    bcp47code: Seq<char>,
    version: Seq<char>,
    build: nat,
    sign_tool: Seq<char>,
    sign_tool_uninstaller: Seq<char>,
) -> Seq<(Seq<char>, Seq<char>)> {
    seq![
        ("app_id"@, app_id),
        ("app_name"@, app_name),
        ("bcp47code"@, bcp47code),
        ("sign_tool"@, sign_tool),
        ("sign_tool_uninstaller"@, sign_tool_uninstaller),
        ("version"@, version),
        ("build"@, decimal(build)),
    ]
}

/// The values a speller script is rendered with on `platform`, with the
/// certificate `pfx_path` and password `password` when signing: the sign
/// commands for `installer.exe` and `uninstall.exe` are made here.
pub open spec fn speller_script_bindings(
    platform: Platform,
    osslsigncode_path: Seq<char>,
    app_id: Seq<char>,
    app_name: Seq<char>,
    bcp47code: Seq<char>,
    version: Seq<char>,
    build: nat,
    pfx_path: Option<Seq<char>>,
    password: Option<Seq<char>>,
) -> Seq<(Seq<char>, Seq<char>)> {
    speller_bindings(
        app_id,
        app_name,
        bcp47code,
        version,
        build,
        sign_tool_for(platform, osslsigncode_path, app_name, pfx_path, password, "installer.exe"@),
        sign_tool_for(platform, osslsigncode_path, app_name, pfx_path, password, "uninstall.exe"@),
    )
}

/// A speller script mentions every value it is made from: the app id, the
/// app name, the language tag, the version, the build number and both
/// signing commands (`rem` when nothing is signed).
pub proof fn lemma_speller_script_mentions_values(
    template: Seq<char>,
    app_id: Seq<char>,
    app_name: Seq<char>,
    bcp47code: Seq<char>,
    version: Seq<char>,
    build: nat,
    sign_tool: Seq<char>,
    sign_tool_uninstaller: Seq<char>,
    script: Seq<char>,
)
    requires
        render_all(
            template,
            speller_bindings(
                app_id,
                app_name,
                bcp47code,
                version,
                build,
                sign_tool,
                sign_tool_uninstaller,
            ),
        ) == Ok::<Seq<char>, TemplateError>(script),
    ensures
        contains_text(script, app_id),
        contains_text(script, app_name),
        contains_text(script, bcp47code),
        contains_text(script, version),
        contains_text(script, decimal(build)),
        contains_text(script, sign_tool),
        contains_text(script, sign_tool_uninstaller),
{
    let b = speller_bindings(
        app_id,
        app_name,
        bcp47code,
        version,
        build,
        sign_tool,
        sign_tool_uninstaller,
    );
    lemma_render_all_uses_every_value(template, b, script);
    assert(contains_text(script, b[0].1));
    assert(contains_text(script, b[1].1));
    assert(contains_text(script, b[2].1));
    assert(contains_text(script, b[3].1));
    assert(contains_text(script, b[4].1));
    assert(contains_text(script, b[5].1));
    assert(contains_text(script, b[6].1));
}

/// The command bound to a sign placeholder for `file_name`: `rem` when
/// nothing is signed, else the platform's sign command for that file.
pub open spec fn expected_sign_command(
    platform: Platform,
    osslsigncode_path: Seq<char>,
    app_name: Seq<char>,
    pfx_path: Option<Seq<char>>,
    password: Option<Seq<char>>,
    file_name: Seq<char>,
) -> Seq<char> {
    match pfx_path {
        None => "rem"@,
        Some(p) => signtool_command(
            platform,
            signtool_path_of(platform, osslsigncode_path),
            app_name,
            wine_path_of(p, platform),
            password.unwrap(),
            file_name,
        ),
    }
}

/// In a speller script each name stands for its own value: `{sign_tool}`
/// for the command that signs `installer.exe`, `{sign_tool_uninstaller}`
/// for the one that signs `uninstall.exe` (both `rem` without a
/// certificate), and the names are bound in this order, once each.
pub proof fn lemma_speller_script_names(
    platform: Platform,
    osslsigncode_path: Seq<char>,
    app_id: Seq<char>,
    app_name: Seq<char>,
    bcp47code: Seq<char>,
    version: Seq<char>,
    build: nat,
    pfx_path: Option<Seq<char>>,
    password: Option<Seq<char>>,
)
    ensures
        ({
            let b = speller_script_bindings(
                platform,
                osslsigncode_path,
                app_id,
                app_name,
                bcp47code,
                version,
                build,
                pfx_path,
                password,
            );
            &&& b.map_values(|x: (Seq<char>, Seq<char>)| x.0) == seq![
                "app_id"@,
                "app_name"@,
                "bcp47code"@,
                "sign_tool"@,
                "sign_tool_uninstaller"@,
                "version"@,
                "build"@,
            ]
            &&& lookup(b, "app_id"@) == Some(app_id)
            &&& lookup(b, "app_name"@) == Some(app_name)
            &&& lookup(b, "bcp47code"@) == Some(bcp47code)
            &&& lookup(b, "version"@) == Some(version)
            &&& lookup(b, "build"@) == Some(decimal(build))
            &&& lookup(b, "sign_tool"@) == Some(
                expected_sign_command(
                    platform,
                    osslsigncode_path,
                    app_name,
                    pfx_path,
                    password,
                    "installer.exe"@,
                ),
            )
            &&& lookup(b, "sign_tool_uninstaller"@) == Some(
                expected_sign_command(
                    platform,
                    osslsigncode_path,
                    app_name,
                    pfx_path,
                    password,
                    "uninstall.exe"@,
                ),
            )
        }),
{
    reveal_strlit("app_id");
    reveal_strlit("app_name");
    reveal_strlit("bcp47code");
    reveal_strlit("sign_tool");
    reveal_strlit("sign_tool_uninstaller");
    reveal_strlit("version");
    reveal_strlit("build");
    reveal_with_fuel(lookup_from, 8);
    let b = speller_script_bindings(
        platform,
        osslsigncode_path,
        app_id,
        app_name,
        bcp47code,
        version,
        build,
        pfx_path,
        password,
    );
    assert(b.map_values(|x: (Seq<char>, Seq<char>)| x.0) =~= seq![
        "app_id"@,
        "app_name"@,
        "bcp47code"@,
        "sign_tool"@,
        "sign_tool_uninstaller"@,
        "version"@,
        "build"@,
    ]);
    assert("app_id"@[4] != "app_name"@[4]);
    assert("app_id"@.len() == 6);
    assert("app_name"@.len() == 8);
    assert("version"@.len() == 7);
    assert("build"@.len() == 5);
    assert("sign_tool_uninstaller"@.len() == 21);
    assert("sign_tool"@.len() == 9);
    assert("bcp47code"@.len() == 9);
    assert("bcp47code"@[0] != "sign_tool"@[0]);
    assert(lookup(b, "app_name"@) == Some(app_name));
    assert(lookup(b, "bcp47code"@) == Some(bcp47code));
    assert(lookup(b, "version"@) == Some(version));
    assert(lookup(b, "build"@) == Some(decimal(build)));
}

/// The NSIS script of the installer of the speller for `bcp47code`: the
/// speller script `template` with `{app_id}`, `{app_name}`, `{bcp47code}`,
/// `{version}` and `{build}` filled in, and `{sign_tool}` and
/// `{sign_tool_uninstaller}` the commands that sign `installer.exe` and
/// `uninstall.exe` (`rem` when no certificate is given).
pub fn make_nsi_speller(
    template: &str,
    platform: Platform,
    osslsigncode_path: &str,
    app_id: &str,
    app_name: &str,
    bcp47code: &str,
    version: &str,
    build: u64,
    pfx_path: Option<&str>,
    sign_pfx_password: Option<&str>,
) -> (r: Result<String, TemplateError>)
    requires
        signing_ok(platform, pfx_path, sign_pfx_password),
    ensures
        rendered(r) == render_all(
            template@,
            speller_script_bindings(
                platform,
                osslsigncode_path@,
                app_id@,
                app_name@,
                bcp47code@,
                version@,
                build as nat,
                opt_chars(pfx_path),
                opt_chars(sign_pfx_password),
            ),
        ),
{
    let installer = sign_tool(
        platform,
        osslsigncode_path,
        app_name,
        pfx_path,
        sign_pfx_password,
        "installer.exe",
    );
    let uninstaller = sign_tool(
        platform,
        osslsigncode_path,
        app_name,
        pfx_path,
        sign_pfx_password,
        "uninstall.exe",
    );
    let ghost expected = speller_bindings(
        app_id@,
        app_name@,
        bcp47code@,
        version@,
        build as nat,
        installer@,
        uninstaller@,
    );
    let mut bindings: Vec<Binding> = Vec::new();
    bindings.push(binding("app_id", owned(app_id)));
    bindings.push(binding("app_name", owned(app_name)));
    bindings.push(binding("bcp47code", owned(bcp47code)));
    bindings.push(binding("sign_tool", installer));
    bindings.push(binding("sign_tool_uninstaller", uninstaller));
    bindings.push(binding("version", owned(version)));
    bindings.push(binding("build", decimal_string(build)));
    assert(bindings_view(bindings@) =~= expected);
    render_template(template, bindings.as_slice())
}

/// The values that the spell-checker installer script is rendered with.
pub open spec fn spellchecker_bindings(
    app_id: Seq<char>,
    app_name: Seq<char>,
    version: Seq<char>,
    build: nat,
    sign_tool: Seq<char>,
    sign_tool_uninstaller: Seq<char>,
) -> Seq<(Seq<char>, Seq<char>)> {
    seq![
        ("app_id"@, app_id),
        ("app_name"@, app_name),
        ("version"@, version),
        ("build"@, decimal(build)),
        ("sign_tool"@, sign_tool),
        ("sign_tool_uninstaller"@, sign_tool_uninstaller),
    ]
}

/// The values a spell-checker script is rendered with on `platform`, with
/// the certificate `pfx_path` and password `password` when signing.
pub open spec fn spellchecker_script_bindings(
    platform: Platform,
    osslsigncode_path: Seq<char>,
    app_id: Seq<char>,
    app_name: Seq<char>,
    version: Seq<char>,
    build: nat,
    pfx_path: Option<Seq<char>>,
    password: Option<Seq<char>>,
) -> Seq<(Seq<char>, Seq<char>)> {
    spellchecker_bindings(
        app_id,
        app_name,
        version,
        build,
        sign_tool_for(platform, osslsigncode_path, app_name, pfx_path, password, "installer.exe"@),
        sign_tool_for(platform, osslsigncode_path, app_name, pfx_path, password, "uninstall.exe"@),
    )
}

/// A spell-checker script mentions every value it is made from: the app
/// id, the app name, the version, the build number and both signing
/// commands (`rem` when nothing is signed).
pub proof fn lemma_spellchecker_script_mentions_values(
    template: Seq<char>,
    app_id: Seq<char>,
    app_name: Seq<char>,
    version: Seq<char>,
    build: nat,
    sign_tool: Seq<char>,
    sign_tool_uninstaller: Seq<char>,
    script: Seq<char>,
)
    requires
        render_all(
            template,
            spellchecker_bindings(app_id, app_name, version, build, sign_tool, sign_tool_uninstaller),
        ) == Ok::<Seq<char>, TemplateError>(script),
    ensures
        contains_text(script, app_id),
        contains_text(script, app_name),
        contains_text(script, version),
        contains_text(script, decimal(build)),
        contains_text(script, sign_tool),
        contains_text(script, sign_tool_uninstaller),
{
    let b = spellchecker_bindings(app_id, app_name, version, build, sign_tool, sign_tool_uninstaller);
    lemma_render_all_uses_every_value(template, b, script);
    assert(contains_text(script, b[0].1));
    assert(contains_text(script, b[1].1));
    assert(contains_text(script, b[2].1));
    assert(contains_text(script, b[3].1));
    assert(contains_text(script, b[4].1));
    assert(contains_text(script, b[5].1));
}

/// In a spell-checker script each name stands for its own value:
/// `{sign_tool}` for the command that signs `installer.exe`,
/// `{sign_tool_uninstaller}` for the one that signs `uninstall.exe` (both
/// `rem` without a certificate), and the names are bound in this order,
/// once each.
pub proof fn lemma_spellchecker_script_names(
    platform: Platform,
    osslsigncode_path: Seq<char>,
    app_id: Seq<char>,
    app_name: Seq<char>,
    version: Seq<char>,
    build: nat,
    pfx_path: Option<Seq<char>>,
    password: Option<Seq<char>>,
)
    ensures
        ({
            let b = spellchecker_script_bindings(
                platform,
                osslsigncode_path,
                app_id,
                app_name,
                version,
                build,
                pfx_path,
                password,
            );
            &&& b.map_values(|x: (Seq<char>, Seq<char>)| x.0) == seq![
                "app_id"@,
                "app_name"@,
                "version"@,
                "build"@,
                "sign_tool"@,
                "sign_tool_uninstaller"@,
            ]
            &&& lookup(b, "app_id"@) == Some(app_id)
            &&& lookup(b, "app_name"@) == Some(app_name)
            &&& lookup(b, "version"@) == Some(version)
            &&& lookup(b, "build"@) == Some(decimal(build))
            &&& lookup(b, "sign_tool"@) == Some(
                expected_sign_command(
                    platform,
                    osslsigncode_path,
                    app_name,
                    pfx_path,
                    password,
                    "installer.exe"@,
                ),
            )
            &&& lookup(b, "sign_tool_uninstaller"@) == Some(
                expected_sign_command(
                    platform,
                    osslsigncode_path,
                    app_name,
                    pfx_path,
                    password,
                    "uninstall.exe"@,
                ),
            )
        }),
{
    reveal_strlit("app_id");
    reveal_strlit("app_name");
    reveal_strlit("sign_tool");
    reveal_strlit("sign_tool_uninstaller");
    reveal_strlit("version");
    reveal_strlit("build");
    reveal_with_fuel(lookup_from, 7);
    let b = spellchecker_script_bindings(
        platform,
        osslsigncode_path,
        app_id,
        app_name,
        version,
        build,
        pfx_path,
        password,
    );
    assert(b.map_values(|x: (Seq<char>, Seq<char>)| x.0) =~= seq![
        "app_id"@,
        "app_name"@,
        "version"@,
        "build"@,
        "sign_tool"@,
        "sign_tool_uninstaller"@,
    ]);
    assert("app_id"@[4] != "app_name"@[4]);
    assert("app_id"@.len() == 6);
    assert("app_name"@.len() == 8);
    assert("version"@.len() == 7);
    assert("build"@.len() == 5);
    assert("sign_tool_uninstaller"@.len() == 21);
    assert("sign_tool"@.len() == 9);
}

/// The NSIS script of the spell-checker installer: the spell-checker script
/// `template` with `{app_id}`, `{app_name}`, `{version}` and `{build}`
/// filled in, and `{sign_tool}` and `{sign_tool_uninstaller}` the commands
/// that sign `installer.exe` and `uninstall.exe` (`rem` when no certificate
/// is given).
pub fn make_nsi_spellchecker(
    template: &str,
    platform: Platform,
    osslsigncode_path: &str,
    app_id: &str,
    app_name: &str,
    version: &str,
    build: u64,
    pfx_path: Option<&str>,
    sign_pfx_password: Option<&str>,
) -> (r: Result<String, TemplateError>)
    requires
        signing_ok(platform, pfx_path, sign_pfx_password),
    ensures
        rendered(r) == render_all(
            template@,
            spellchecker_script_bindings(
                platform,
                osslsigncode_path@,
                app_id@,
                app_name@,
                version@,
                build as nat,
                opt_chars(pfx_path),
                opt_chars(sign_pfx_password),
            ),
        ),
{
    let installer = sign_tool(
        platform,
        osslsigncode_path,
        app_name,
        pfx_path,
        sign_pfx_password,
        "installer.exe",
    );
    let uninstaller = sign_tool(
        platform,
        osslsigncode_path,
        app_name,
        pfx_path,
        sign_pfx_password,
        "uninstall.exe",
    );
    let ghost expected = spellchecker_bindings(
        app_id@,
        app_name@,
        version@,
        build as nat,
        installer@,
        uninstaller@,
    );
    let mut bindings: Vec<Binding> = Vec::new();
    bindings.push(binding("app_id", owned(app_id)));
    bindings.push(binding("app_name", owned(app_name)));
    bindings.push(binding("version", owned(version)));
    bindings.push(binding("build", decimal_string(build)));
    bindings.push(binding("sign_tool", installer));
    bindings.push(binding("sign_tool_uninstaller", uninstaller));
    assert(bindings_view(bindings@) =~= expected);
    render_template(template, bindings.as_slice())
}

/// The name of the NSIS script, written into the output directory.
pub const SCRIPT_FILE: &'static str = "installer.nsi";

/// The name under which the speller archive is copied next to the script.
pub const SPELLER_FILE: &'static str = "speller.zhfst";

/// The name under which the spell-checker library is copied next to the
/// script.
pub const SPELLCHECKER_FILE: &'static str = "windivvun.dll";

/// The name of the installer that NSIS writes.
pub const BUILT_INSTALLER_FILE: &'static str = "installer.exe";

/// `bcp47code-version.exe`: the final name of a speller installer.
pub fn speller_installer_name(bcp47code: &str, version: &str) -> (r: String)
    ensures
        r@ == bcp47code@ + "-"@ + version@ + ".exe"@,
{
    let mut out = chars_of(bcp47code);
    push_str(&mut out, "-");
    push_str(&mut out, version);
    push_str(&mut out, ".exe");
    string_from_chars(out.as_slice())
}

/// `windivvun-version.exe`: the final name of the spell-checker installer.
pub fn spellchecker_installer_name(version: &str) -> (r: String)
    ensures
        r@ == "windivvun-"@ + version@ + ".exe"@,
{
    let mut out = chars_of("windivvun-");
    push_str(&mut out, version);
    push_str(&mut out, ".exe");
    string_from_chars(out.as_slice())
}

/// The run of `makensis` (at `makensis`) on the script at the Windows path
/// `script_path`, writing `installer.exe` into `output_dir`: directly on
/// Windows, through `wine` elsewhere. It runs in `output_dir`.
pub fn nsis_invocation(platform: Platform, makensis: &str, output_dir: &str, script_path: &str) -> (r:
    Invocation)
    ensures
        ({
            let out_file = "/XOutFile "@ + output_dir@ + "\\installer.exe"@;
            &&& r.dir@ == output_dir@
            &&& match platform {
                Platform::Windows => r.program@ == makensis@ && args_view(r.args@) == seq![
                    out_file,
                    script_path@,
                ],
                Platform::Wine => r.program@ == "wine"@ && args_view(r.args@) == seq![
                    makensis@,
                    out_file,
                    script_path@,
                ],
            }
        }),
{
    let mut out_file = chars_of("/XOutFile ");
    push_str(&mut out_file, output_dir);
    push_str(&mut out_file, "\\installer.exe");
    let out_file = string_from_chars(out_file.as_slice());
    let mut args: Vec<String> = Vec::new();
    let program = match platform {
        Platform::Windows => owned(makensis),
        Platform::Wine => {
            args.push(owned(makensis));
            owned("wine")
        },
    };
    args.push(out_file);
    args.push(owned(script_path));
    let r = Invocation { program, args, dir: owned(output_dir) };
    assert(args_view(r.args@) =~= match platform {
        Platform::Windows => seq![out_file@, script_path@],
        Platform::Wine => seq![makensis@, out_file@, script_path@],
    });
    r
}

/// Where NSIS is looked for when `NSIS_PATH` is not set, in order: the two
/// usual installation directories on Windows, none elsewhere.
pub fn nsis_search_dirs(platform: Platform) -> (r: Vec<String>)
    ensures
        args_view(r@) == match platform {
            Platform::Windows => seq![
                "C:\\Program Files\\NSIS"@,
                "C:\\Program Files (x86)\\NSIS"@,
            ],
            Platform::Wine => Seq::<Seq<char>>::empty(),
        },
{
    let mut dirs: Vec<String> = Vec::new();
    match platform {
        Platform::Windows => {
            dirs.push(owned("C:\\Program Files\\NSIS"));
            dirs.push(owned("C:\\Program Files (x86)\\NSIS"));
        },
        Platform::Wine => {},
    }
    assert(args_view(dirs@) =~= match platform {
        Platform::Windows => seq![
            "C:\\Program Files\\NSIS"@,
            "C:\\Program Files (x86)\\NSIS"@,
        ],
        Platform::Wine => Seq::<Seq<char>>::empty(),
    });
    dirs
}


/// What a Windows installer build is made from.
pub struct WinBuild {
    pub platform: Platform,
    /// The NSIS script template.
    pub template: String,
    pub output_dir: String,
    pub app_id: String,
    pub app_name: String,
    pub version: String,
    pub build: u64,
    /// The language of a speller installer; `None` for the spell-checker
    /// installer.
    pub bcp47code: Option<String>,
    /// The canonical path of the signing certificate, when signing.
    pub pfx_path: Option<String>,
    pub sign_pfx_password: Option<String>,
    /// The canonical path of `osslsigncode`, of use only off Windows.
    pub osslsigncode_path: String,
    /// Whether the NSIS script is kept once NSIS has run.
    pub keep_script: bool,
}

/// Where a build stands.
pub enum WinPhase {
    Start,
    OutputDirMade,
    /// The speller archive is in the output directory.
    PayloadCopied,
    /// The speller script is written.
    ScriptWritten,
    /// NSIS is being looked for.
    NsisSought,
    /// The spell-checker library is in the output directory; NSIS is at
    /// this path.
    CheckerPayloadCopied(String),
    /// The spell-checker script is written; NSIS is at this path.
    CheckerScriptWritten(String),
    /// The script is being located; NSIS is at this path.
    Locating(String),
    /// NSIS runs.
    Running,
    /// The script is removed; whether NSIS succeeded, and what it wrote on
    /// its error output.
    ScriptRemoved(bool, String),
    /// The payload is removed; whether NSIS succeeded, and its error output.
    PayloadRemoved(bool, String),
    /// The installer has its final name.
    Renamed,
    Finished,
}

/// What happened since the last action.
pub enum WinEvent {
    /// The build starts.
    Begin,
    /// The last action was carried out.
    Done,
    /// NSIS's `makensis` is at this path.
    NsisFound(String),
    /// NSIS is not installed, and `NSIS_PATH` is not set.
    NsisMissing,
    /// The canonical path of the script, if it has one as a string.
    ScriptLocated(Option<String>),
    /// NSIS exited: whether it succeeded, and what it wrote on its error
    /// output.
    NsisExited(bool, String),
}

/// What to do next. File names are those of files in the output directory.
pub enum WinAction {
    CreateOutputDir,
    /// Copy the input file (speller archive or spell-checker library) under
    /// this name.
    CopyPayload(String),
    /// Write the NSIS script with these contents.
    WriteScript(String),
    /// Look for NSIS: `NSIS_PATH`, then the directories of
    /// `nsis_search_dirs`.
    FindNsis,
    /// Find the canonical path of the script.
    LocateScript,
    Run(Invocation),
    RemoveFile(String),
    Rename(String, String),
    /// The template cannot be rendered; the build ends.
    InvalidTemplate(TemplateError),
    /// Print this on the error output; the build ends.
    Report(String),
    /// The build cannot go on: stop the program with this message.
    Abort(String),
    /// The build is over.
    Finish,
}

/// What a build needs of its inputs: a password with every certificate,
/// and a certificate path that `wine_path` accepts.
pub open spec fn build_ok(c: WinBuild) -> bool {
    &&& c.pfx_path is Some ==> c.sign_pfx_password is Some
    &&& c.pfx_path matches Some(p) ==> path_accepted(p@, c.platform)
}

/// The optional string as characters.
pub open spec fn opt_string_chars(o: Option<String>) -> Option<Seq<char>> {
    match o {
        Some(s) => Some(s@),
        None => None,
    }
}

/// The sign command of a build for `file_name`.
pub open spec fn build_sign_tool(c: WinBuild, file_name: Seq<char>) -> Seq<char> {
    sign_tool_for(
        c.platform,
        c.osslsigncode_path@,
        c.app_name@,
        opt_string_chars(c.pfx_path),
        opt_string_chars(c.sign_pfx_password),
        file_name,
    )
}

/// The NSIS script of a build.
pub open spec fn script_of(c: WinBuild) -> Result<Seq<char>, TemplateError> {
    match c.bcp47code {
        Some(l) => render_all(
            c.template@,
            speller_bindings(
                c.app_id@,
                c.app_name@,
                l@,
                c.version@,
                c.build as nat,
                build_sign_tool(c, "installer.exe"@),
                build_sign_tool(c, "uninstall.exe"@),
            ),
        ),
        None => render_all(
            c.template@,
            spellchecker_bindings(
                c.app_id@,
                c.app_name@,
                c.version@,
                c.build as nat,
                build_sign_tool(c, "installer.exe"@),
                build_sign_tool(c, "uninstall.exe"@),
            ),
        ),
    }
}

/// The name under which a build copies its input file.
pub open spec fn payload_of(c: WinBuild) -> Seq<char> {
    if c.bcp47code is Some {
        SPELLER_FILE@
    } else {
        SPELLCHECKER_FILE@
    }
}

/// The final name of a build's installer.
pub open spec fn installer_name_of(c: WinBuild) -> Seq<char> {
    match c.bcp47code {
        Some(l) => l@ + "-"@ + c.version@ + ".exe"@,
        None => "windivvun-"@ + c.version@ + ".exe"@,
    }
}

/// Whether the action writes the script of `c`, or reports that its
/// template is invalid, and the phase is the one that goes with it.
pub open spec fn script_step(c: WinBuild, np: WinPhase, a: WinAction, written: WinPhase) -> bool {
    match script_of(c) {
        Ok(s) => {
            &&& np == written
            &&& a matches WinAction::WriteScript(w)
            &&& w@ == s
        },
        Err(e) => {
            &&& np is Finished
            &&& a == WinAction::InvalidTemplate(e)
        },
    }
}

/// Whether the action reports `msg` and the build ends.
pub open spec fn reports(np: WinPhase, a: WinAction, msg: Seq<char>) -> bool {
    &&& np is Finished
    &&& a matches WinAction::Report(m)
    &&& m@ == msg
}

/// Whether the build stops the program with `msg`.
pub open spec fn aborts(np: WinPhase, a: WinAction, msg: Seq<char>) -> bool {
    &&& np is Finished
    &&& a matches WinAction::Abort(m)
    &&& m@ == msg
}

/// Whether the action removes the file `name` of the output directory.
pub open spec fn removes(a: WinAction, name: Seq<char>) -> bool {
    &&& a matches WinAction::RemoveFile(f)
    &&& f@ == name
}

/// Whether the action gives the installer that NSIS built its final name.
pub open spec fn renames_installer(c: WinBuild, np: WinPhase, a: WinAction) -> bool {
    &&& np is Renamed
    &&& a matches WinAction::Rename(from, to)
    &&& from@ == BUILT_INSTALLER_FILE@
    &&& to@ == installer_name_of(c)
}

/// Whether the action copies the input file under `name`.
pub open spec fn copies(a: WinAction, name: Seq<char>) -> bool {
    &&& a matches WinAction::CopyPayload(f)
    &&& f@ == name
}

/// The step of a build from phase `p` on event `e` to phase `np` with
/// action `a`. A speller build makes the output directory, copies the
/// archive, writes the script, looks for NSIS, locates the script and runs
/// NSIS; a spell-checker build looks for NSIS right after making the output
/// directory, then copies the library and writes the script. After NSIS has
/// run the script is removed (unless it is kept), then the payload; then the
/// installer gets its final name when NSIS succeeded, and NSIS's failure is
/// reported when it did not. A missing NSIS is reported and ends the build;
/// any other event ends it too.
pub open spec fn win_step(c: WinBuild, p: WinPhase, e: WinEvent, np: WinPhase, a: WinAction) -> bool {
    match (p, e) {
        (WinPhase::Start, WinEvent::Begin) => np is OutputDirMade && a is CreateOutputDir,
        (WinPhase::OutputDirMade, WinEvent::Done) => if c.bcp47code is Some {
            np is PayloadCopied && copies(a, SPELLER_FILE@)
        } else {
            np is NsisSought && a is FindNsis
        },
        (WinPhase::PayloadCopied, WinEvent::Done) => if c.bcp47code is Some {
            script_step(c, np, a, WinPhase::ScriptWritten)
        } else {
            np is Finished && a is Finish
        },
        (WinPhase::ScriptWritten, WinEvent::Done) => np is NsisSought && a is FindNsis,
        (WinPhase::NsisSought, WinEvent::NsisMissing) => reports(
            np,
            a,
            "NSIS 3 not found, and NSIS_PATH not set."@,
        ),
        (WinPhase::NsisSought, WinEvent::NsisFound(m)) => if c.bcp47code is Some {
            np == WinPhase::Locating(m) && a is LocateScript
        } else {
            np == WinPhase::CheckerPayloadCopied(m) && copies(a, SPELLCHECKER_FILE@)
        },
        (WinPhase::CheckerPayloadCopied(m), WinEvent::Done) => script_step(
            c,
            np,
            a,
            WinPhase::CheckerScriptWritten(m),
        ),
        (WinPhase::CheckerScriptWritten(m), WinEvent::Done) => np == WinPhase::Locating(m)
            && a is LocateScript,
        (WinPhase::Locating(m), WinEvent::ScriptLocated(located)) => match located {
            Some(path) => if path_accepted(path@, c.platform) {
                &&& np is Running
                &&& a matches WinAction::Run(i)
                &&& nsis_run(i, c.platform, m@, c.output_dir@, wine_path_of(path@, c.platform))
            } else {
                aborts(np, a, "byte index 4 is not a char boundary"@)
            },
            None => aborts(np, a, "valid path to installer"@),
        },
        (WinPhase::Running, WinEvent::NsisExited(ok, err)) => if c.keep_script {
            np == WinPhase::PayloadRemoved(ok, err) && removes(a, payload_of(c))
        } else {
            np == WinPhase::ScriptRemoved(ok, err) && removes(a, SCRIPT_FILE@)
        },
        (WinPhase::ScriptRemoved(ok, err), WinEvent::Done) => np == WinPhase::PayloadRemoved(ok, err)
            && removes(a, payload_of(c)),
        (WinPhase::PayloadRemoved(ok, err), WinEvent::Done) => if ok {
            renames_installer(c, np, a)
        } else {
            reports(np, a, "NSIS failed!\n"@ + err@)
        },
        (WinPhase::Renamed, WinEvent::Done) => np is Finished && a is Finish,
        _ => np is Finished && a is Finish,
    }
}

/// Once NSIS has exited, a build cleans up before anything else: the
/// script is removed unless it is kept, the payload is removed in any case,
/// and only then is the installer renamed (when NSIS succeeded) or NSIS's
/// failure reported (when it did not), which ends the build.
pub proof fn lemma_cleanup_after_nsis(
    c: WinBuild,
    ok: bool,
    err: String,
    p1: WinPhase,
    a1: WinAction,
    p2: WinPhase,
    a2: WinAction,
    p3: WinPhase,
    a3: WinAction,
)
    requires
        win_step(c, WinPhase::Running, WinEvent::NsisExited(ok, err), p1, a1),
        win_step(c, p1, WinEvent::Done, p2, a2),
        !c.keep_script ==> win_step(c, p2, WinEvent::Done, p3, a3),
    ensures
        ({
            let (last_phase, last) = if c.keep_script {
                (p2, a2)
            } else {
                (p3, a3)
            };
            &&& c.keep_script ==> removes(a1, payload_of(c))
            &&& !c.keep_script ==> removes(a1, SCRIPT_FILE@) && removes(a2, payload_of(c))
            &&& ok ==> renames_installer(c, last_phase, last)
            &&& !ok ==> reports(last_phase, last, "NSIS failed!\n"@ + err@)
        }),
{
}

/// Whether the action writes the script `s`.
pub open spec fn writes_script(a: WinAction, s: Seq<char>) -> bool {
    &&& a matches WinAction::WriteScript(w)
    &&& w@ == s
}

/// The script a build writes is the one `make_nsi_speller` (for a speller
/// build) or `make_nsi_spellchecker` (for the spell-checker build) makes of
/// the build's own template, platform, names, version, build number,
/// certificate and password; a template those refuse ends the build with
/// their error. When it is written, the script holds the commands that
/// sign `installer.exe` and `uninstall.exe` for the build's platform with
/// its certificate (`rem` without one).
pub proof fn lemma_build_writes_the_made_script(
    c: WinBuild,
    p0: WinPhase,
    np: WinPhase,
    a: WinAction,
)
    requires
        build_ok(c),
        c.bcp47code is Some ==> p0 is PayloadCopied,
        c.bcp47code is None ==> p0 is CheckerPayloadCopied,
        win_step(c, p0, WinEvent::Done, np, a),
    ensures
        ({
            let pfx = opt_string_chars(c.pfx_path);
            let password = opt_string_chars(c.sign_pfx_password);
            let b = match c.bcp47code {
                Some(l) => speller_script_bindings(
                    c.platform,
                    c.osslsigncode_path@,
                    c.app_id@,
                    c.app_name@,
                    l@,
                    c.version@,
                    c.build as nat,
                    pfx,
                    password,
                ),
                None => spellchecker_script_bindings(
                    c.platform,
                    c.osslsigncode_path@,
                    c.app_id@,
                    c.app_name@,
                    c.version@,
                    c.build as nat,
                    pfx,
                    password,
                ),
            };
            &&& match render_all(c.template@, b) {
                Ok(s) => writes_script(a, s),
                Err(e) => np is Finished && a == WinAction::InvalidTemplate(e),
            }
            &&& a matches WinAction::WriteScript(w) ==> contains_text(
                w@,
                expected_sign_command(
                    c.platform,
                    c.osslsigncode_path@,
                    c.app_name@,
                    pfx,
                    password,
                    "installer.exe"@,
                ),
            ) && contains_text(
                w@,
                expected_sign_command(
                    c.platform,
                    c.osslsigncode_path@,
                    c.app_name@,
                    pfx,
                    password,
                    "uninstall.exe"@,
                ),
            )
        }),
{
    let pfx = opt_string_chars(c.pfx_path);
    let password = opt_string_chars(c.sign_pfx_password);
    let inst = expected_sign_command(
        c.platform,
        c.osslsigncode_path@,
        c.app_name@,
        pfx,
        password,
        "installer.exe"@,
    );
    let uninst = expected_sign_command(
        c.platform,
        c.osslsigncode_path@,
        c.app_name@,
        pfx,
        password,
        "uninstall.exe"@,
    );
    assert(build_sign_tool(c, "installer.exe"@) == inst);
    assert(build_sign_tool(c, "uninstall.exe"@) == uninst);
    match c.bcp47code {
        Some(l) => {
            let b = speller_script_bindings(
                c.platform,
                c.osslsigncode_path@,
                c.app_id@,
                c.app_name@,
                l@,
                c.version@,
                c.build as nat,
                pfx,
                password,
            );
            assert(script_of(c) == render_all(c.template@, b));
            if let Ok(s) = render_all(c.template@, b) {
                lemma_render_all_uses_every_value(c.template@, b, s);
                assert(b[3].1 == inst);
                assert(b[4].1 == uninst);
                assert(contains_text(s, b[3].1));
                assert(contains_text(s, b[4].1));
            }
        },
        None => {
            let b = spellchecker_script_bindings(
                c.platform,
                c.osslsigncode_path@,
                c.app_id@,
                c.app_name@,
                c.version@,
                c.build as nat,
                pfx,
                password,
            );
            assert(script_of(c) == render_all(c.template@, b));
            if let Ok(s) = render_all(c.template@, b) {
                lemma_render_all_uses_every_value(c.template@, b, s);
                assert(b[4].1 == inst);
                assert(b[5].1 == uninst);
                assert(contains_text(s, b[4].1));
                assert(contains_text(s, b[5].1));
            }
        },
    }
}

/// Whether `i` runs `makensis` on the script at `script_path` in
/// `output_dir`, as `nsis_invocation` makes it.
pub open spec fn nsis_run(
    i: Invocation,
    platform: Platform,
    makensis: Seq<char>,
    output_dir: Seq<char>,
    script_path: Seq<char>,
) -> bool {
    let out_file = "/XOutFile "@ + output_dir + "\\installer.exe"@;
    &&& i.dir@ == output_dir
    &&& match platform {
        Platform::Windows => i.program@ == makensis && args_view(i.args@) == seq![
            out_file,
            script_path,
        ],
        Platform::Wine => i.program@ == "wine"@ && args_view(i.args@) == seq![
            makensis,
            out_file,
            script_path,
        ],
    }
}

fn opt_str(o: &Option<String>) -> (r: Option<&str>)
    ensures
        opt_chars(r) == opt_string_chars(*o),
{
    match o {
        Some(s) => Some(s.as_str()),
        None => None,
    }
}

/// The script of the build `c`.
fn build_script(c: &WinBuild) -> (r: Result<String, TemplateError>)
    requires
        build_ok(*c),
    ensures
        rendered(r) == script_of(*c),
{
    let pfx = opt_str(&c.pfx_path);
    let password = opt_str(&c.sign_pfx_password);
    match &c.bcp47code {
        Some(l) => make_nsi_speller(
            c.template.as_str(),
            c.platform,
            c.osslsigncode_path.as_str(),
            c.app_id.as_str(),
            c.app_name.as_str(),
            l.as_str(),
            c.version.as_str(),
            c.build,
            pfx,
            password,
        ),
        None => make_nsi_spellchecker(
            c.template.as_str(),
            c.platform,
            c.osslsigncode_path.as_str(),
            c.app_id.as_str(),
            c.app_name.as_str(),
            c.version.as_str(),
            c.build,
            pfx,
            password,
        ),
    }
}

/// The name of the payload of the build `c`.
fn payload_name(c: &WinBuild) -> (r: String)
    ensures
        r@ == payload_of(*c),
{
    if c.bcp47code.is_some() {
        owned(SPELLER_FILE)
    } else {
        owned(SPELLCHECKER_FILE)
    }
}

/// The next step of the Windows installer build `c`: from phase `phase`
/// and what just happened, the next phase and what to do.
pub fn windows_build_step(c: &WinBuild, phase: WinPhase, event: WinEvent) -> (r: (
    WinPhase,
    WinAction,
))
    requires
        build_ok(*c),
    ensures
        win_step(*c, phase, event, r.0, r.1),
{
    match (phase, event) {
        (WinPhase::Start, WinEvent::Begin) => (WinPhase::OutputDirMade, WinAction::CreateOutputDir),
        (WinPhase::OutputDirMade, WinEvent::Done) => if c.bcp47code.is_some() {
            (WinPhase::PayloadCopied, WinAction::CopyPayload(owned(SPELLER_FILE)))
        } else {
            (WinPhase::NsisSought, WinAction::FindNsis)
        },
        (WinPhase::PayloadCopied, WinEvent::Done) => if c.bcp47code.is_some() {
            match build_script(c) {
                Ok(s) => (WinPhase::ScriptWritten, WinAction::WriteScript(s)),
                Err(e) => (WinPhase::Finished, WinAction::InvalidTemplate(e)),
            }
        } else {
            (WinPhase::Finished, WinAction::Finish)
        },
        (WinPhase::ScriptWritten, WinEvent::Done) => (WinPhase::NsisSought, WinAction::FindNsis),
        (WinPhase::NsisSought, WinEvent::NsisMissing) => (
            WinPhase::Finished,
            WinAction::Report(owned("NSIS 3 not found, and NSIS_PATH not set.")),
        ),
        (WinPhase::NsisSought, WinEvent::NsisFound(m)) => if c.bcp47code.is_some() {
            (WinPhase::Locating(m), WinAction::LocateScript)
        } else {
            (WinPhase::CheckerPayloadCopied(m), WinAction::CopyPayload(owned(SPELLCHECKER_FILE)))
        },
        (WinPhase::CheckerPayloadCopied(m), WinEvent::Done) => match build_script(c) {
            Ok(s) => (WinPhase::CheckerScriptWritten(m), WinAction::WriteScript(s)),
            Err(e) => (WinPhase::Finished, WinAction::InvalidTemplate(e)),
        },
        (WinPhase::CheckerScriptWritten(m), WinEvent::Done) => (
            WinPhase::Locating(m),
            WinAction::LocateScript,
        ),
        (WinPhase::Locating(m), WinEvent::ScriptLocated(located)) => match located {
            Some(path) => {
                let accepted = match c.platform {
                    Platform::Windows => path.as_str().is_char_boundary(4),
                    Platform::Wine => true,
                };
                if accepted {
                    let script = wine_path(path.as_str(), c.platform);
                    let run = nsis_invocation(
                        c.platform,
                        m.as_str(),
                        c.output_dir.as_str(),
                        script.as_str(),
                    );
                    (WinPhase::Running, WinAction::Run(run))
                } else {
                    (WinPhase::Finished, WinAction::Abort(owned("byte index 4 is not a char boundary")))
                }
            },
            None => (WinPhase::Finished, WinAction::Abort(owned("valid path to installer"))),
        },
        (WinPhase::Running, WinEvent::NsisExited(ok, err)) => if c.keep_script {
            (WinPhase::PayloadRemoved(ok, err), WinAction::RemoveFile(payload_name(c)))
        } else {
            (WinPhase::ScriptRemoved(ok, err), WinAction::RemoveFile(owned(SCRIPT_FILE)))
        },
        (WinPhase::ScriptRemoved(ok, err), WinEvent::Done) => (
            WinPhase::PayloadRemoved(ok, err),
            WinAction::RemoveFile(payload_name(c)),
        ),
        (WinPhase::PayloadRemoved(ok, err), WinEvent::Done) => if ok {
            let name = match &c.bcp47code {
                Some(l) => speller_installer_name(l.as_str(), c.version.as_str()),
                None => spellchecker_installer_name(c.version.as_str()),
            };
            (WinPhase::Renamed, WinAction::Rename(owned(BUILT_INSTALLER_FILE), name))
        } else {
            let mut msg = chars_of("NSIS failed!\n");
            push_str(&mut msg, err.as_str());
            (WinPhase::Finished, WinAction::Report(string_from_chars(msg.as_slice())))
        },
        (WinPhase::Renamed, WinEvent::Done) => (WinPhase::Finished, WinAction::Finish),
        _ => (WinPhase::Finished, WinAction::Finish),
    }
}

} // verus!
