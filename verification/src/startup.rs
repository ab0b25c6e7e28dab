use vstd::prelude::*;
use crate::api::{ApiMode, ApiModeView};
use crate::text::{int_decimal, push_i64_decimal};

verus! {

/// The banner's rule: 52 `=`.
pub open spec fn separator() -> Seq<char> {
    Seq::new(52, |i: int| '=')
}

/// Lines that describe the API mode in the banner.
pub open spec fn mode_lines(mode: ApiModeView) -> Seq<Seq<char>> {
    match mode {
        ApiModeView::Mock => seq![
            "  MODE: Mock (offline) — no API calls"@,
            "  Set RGAPI_KEY in .env for live data"@,
        ],
        ApiModeView::Direct { region, platform, .. } => seq![
            "  MODE: Direct — live Riot API"@,
            "     region:   "@ + region,
            "     platform: "@ + platform,
        ],
        ApiModeView::Proxy { proxy_base } => seq![
            "  MODE: Proxy — routed through backend"@,
            "     proxy: "@ + proxy_base,
        ],
    }
}

/// The startup banner, one entry per line written to standard error: the
/// package name and version, the process ID, the database path and the API
/// mode between two rules, with a blank line before and after.
pub open spec fn spec_banner_lines(
    name: Seq<char>,
    version: Seq<char>,
    pid: u32,
    db_path: Seq<char>,
    mode: ApiModeView,
) -> Seq<Seq<char>> {
    seq![
        "\n"@ + separator(),
        "  "@ + name + " v"@ + version,
        "  PID: "@ + int_decimal(pid as int),
        "  DB:  "@ + db_path,
        separator(),
    ] + mode_lines(mode) + seq![separator() + "\n"@]
}

fn separator_text() -> (r: String)
    ensures
        r@ == separator(),
{
    let mut sep = String::new();
    let mut i: usize = 0;
    proof { reveal_strlit("="); }
    while i < 52
        invariant
            i <= 52,
            sep@ =~= Seq::new(i as nat, |j: int| '='),
            "="@ == seq!['='],
        decreases 52 - i,
    {
        sep.append("=");
        i = i + 1;
    }
    sep
}

fn line(prefix: &str, value: &str) -> (r: String)
    ensures
        r@ == prefix@ + value@,
{
    let mut s = String::from_str(prefix);
    s.append(value);
    s
}

/// The lines of the startup banner for a package `name` and `version`, the
/// process `pid`, the database path and the API mode.
pub fn startup_banner_lines(
    name: &str,
    version: &str,
    pid: u32,
    db_path: &str,
    mode: &ApiMode,
) -> (r: Vec<String>)
    ensures
        r.deep_view() == spec_banner_lines(name@, version@, pid, db_path@, mode@),
{
    let sep = separator_text();
    let mut lines: Vec<String> = Vec::new();
    lines.push(line("\n", sep.as_str()));
    let mut title = line("  ", name);
    title.append(" v");
    title.append(version);
    lines.push(title);
    let mut pid_line = String::from_str("  PID: ");
    push_i64_decimal(&mut pid_line, pid as i64);
    lines.push(pid_line);
    lines.push(line("  DB:  ", db_path));
    lines.push(sep.clone());
    match mode {
        ApiMode::Mock => {
            lines.push(String::from_str("  MODE: Mock (offline) — no API calls"));
            lines.push(String::from_str("  Set RGAPI_KEY in .env for live data"));
        },
        ApiMode::Direct { region, platform, .. } => {
            lines.push(String::from_str("  MODE: Direct — live Riot API"));
            lines.push(line("     region:   ", region.as_str()));
            lines.push(line("     platform: ", platform.as_str()));
        },
        ApiMode::Proxy { proxy_base } => {
            lines.push(String::from_str("  MODE: Proxy — routed through backend"));
            lines.push(line("     proxy: ", proxy_base.as_str()));
        },
    }
    lines.push(line(sep.as_str(), "\n"));
    assert(lines.deep_view() =~= spec_banner_lines(name@, version@, pid, db_path@, mode@));
    lines
}

/// The warning of a release build that runs in Mock mode.
pub open spec fn production_mock_warning_text() -> Seq<char> {
    "[HexForge] RELEASE BUILD running in MOCK mode — no RGAPI_KEY configured.\n[HexForge]    Create a .env file with RGAPI_KEY=*** for live data, or\n[HexForge]    set USE_MOCK=true in .env to silence this warning."@
}

/// The warning to write when a release build (`debug_build` false) has no
/// API key configured and runs in Mock mode; `None` in every other case.
pub fn production_mock_warning(mode: &ApiMode, debug_build: bool) -> (r: Option<String>)
    ensures
        r is Some <==> (mode@ is Mock && !debug_build),
        r matches Some(t) ==> t@ == production_mock_warning_text(),
{
    match mode {
        ApiMode::Mock => {
            if debug_build {
                None
            } else {
                Some(String::from_str("[HexForge] RELEASE BUILD running in MOCK mode — no RGAPI_KEY configured.\n[HexForge]    Create a .env file with RGAPI_KEY=*** for live data, or\n[HexForge]    set USE_MOCK=true in .env to silence this warning."))
            }
        },
        _ => None,
    }
}

/// The key kept in the application state for a mode: the API key in Direct
/// mode, `MOCK_MODE` in Mock mode and `proxy:` followed by the proxy base in
/// Proxy mode.
pub open spec fn spec_state_api_key(mode: ApiModeView) -> Seq<char> {
    match mode {
        ApiModeView::Direct { api_key, .. } => api_key,
        ApiModeView::Mock => "MOCK_MODE"@,
        ApiModeView::Proxy { proxy_base } => "proxy:"@ + proxy_base,
    }
}

/// The key kept in the application state for a mode.
pub fn state_api_key(mode: &ApiMode) -> (r: String)
    ensures
        r@ == spec_state_api_key(mode@),
{
    match mode {
        ApiMode::Direct { api_key, .. } => api_key.clone(),
        ApiMode::Mock => String::from_str("MOCK_MODE"),
        ApiMode::Proxy { proxy_base } => line("proxy:", proxy_base.as_str()),
    }
}


/// The banner, line by line: a blank line and a rule of 52 `=`, the name and
/// version, the process ID in decimal, the database path, a rule, the mode
/// lines (Direct: region then platform; Proxy: the proxy base), and a rule
/// followed by a blank line.
pub proof fn lemma_banner_lines(
    name: Seq<char>,
    version: Seq<char>,
    pid: u32,
    db_path: Seq<char>,
    api_key: Seq<char>,
    region: Seq<char>,
    platform: Seq<char>,
    proxy_base: Seq<char>,
)
    ensures
        separator().len() == 52,
        forall|i: int| 0 <= i < 52 ==> #[trigger] separator()[i] == '=',
        ({
            let head = seq![
                "\n"@ + separator(),
                "  "@ + name + " v"@ + version,
                "  PID: "@ + int_decimal(pid as int),
                "  DB:  "@ + db_path,
                separator(),
            ];
            let tail = seq![separator() + "\n"@];
            &&& spec_banner_lines(name, version, pid, db_path, ApiModeView::Mock) == head + seq![
                "  MODE: Mock (offline) — no API calls"@,
                "  Set RGAPI_KEY in .env for live data"@,
            ] + tail
            &&& spec_banner_lines(name, version, pid, db_path, ApiModeView::Direct { api_key, region, platform })
                == head + seq![
                "  MODE: Direct — live Riot API"@,
                "     region:   "@ + region,
                "     platform: "@ + platform,
            ] + tail
            &&& spec_banner_lines(name, version, pid, db_path, ApiModeView::Proxy { proxy_base }) == head + seq![
                "  MODE: Proxy — routed through backend"@,
                "     proxy: "@ + proxy_base,
            ] + tail
        }),
{
}

/// The key kept in the state is the Direct key, `MOCK_MODE`, or `proxy:`
/// followed by the proxy base.
pub proof fn lemma_state_key(api_key: Seq<char>, region: Seq<char>, platform: Seq<char>, proxy_base: Seq<char>)
    ensures
        spec_state_api_key(ApiModeView::Direct { api_key, region, platform }) == api_key,
        spec_state_api_key(ApiModeView::Mock) == "MOCK_MODE"@,
        spec_state_api_key(ApiModeView::Proxy { proxy_base }) == "proxy:"@ + proxy_base,
{
}
} // verus!
