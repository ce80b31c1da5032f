//! The macOS SDK that a source tree asks for: which one it is, and where it
//! is fetched from.

use crate::config::Config;
use crate::plan::{
    concat, no_env, no_words, push_text, push_word, text, text_word, under, Command, CommandView,
    Output, WordView,
};
use crate::store::{lines, lines_of};
use crate::tagset::{option_texts, texts};
use crate::xor::{decrypted, is_disguise, xor_decode};
use vstd::prelude::*;

verus! {

/// `regex::Error`: why a pattern was refused. It is passed on as it comes;
/// nothing is said of what it holds.
#[verifier::external_type_specification]
#[verifier::external_body]
pub struct ExRegexError(regex::Error);

/// Why the SDK that a source tree asks for is not known.
#[derive(Debug)]
pub enum SdkError {
    /// A pattern was refused.
    Pattern(regex::Error),
    /// The text does not name both the version of Xcode and its build.
    NotFound,
}

/// Whether `regex::Regex::new` accepts `pattern`.
pub uninterp spec fn compiles(pattern: Seq<char>) -> bool;

/// What the first group of `pattern` holds in the leftmost match of
/// `pattern` in `line`, as `regex::Regex::captures` finds it; `None` where
/// `pattern` does not match in `line` or the group took no part in the match.
pub uninterp spec fn group_one(pattern: Seq<char>, line: Seq<char>) -> Option<Seq<char>>;

/// What the first group of `pattern` holds in each of `lines`.
pub open spec fn captured(pattern: Seq<char>, lines: Seq<Seq<char>>) -> Seq<Option<Seq<char>>> {
    lines.map_values(|line: Seq<char>| group_one(pattern, line))
}

/// `regex::Regex::new` on `pattern`, then `regex::Regex::captures` on each of
/// `lines` and of each match `Captures::get(1)`. The call fails exactly where
/// the pattern is refused; otherwise it gives, line by line, what
/// `group_one` names.
#[verifier::external_body]
fn first_groups(pattern: &str, lines: &Vec<String>) -> (r: Result<
    Vec<Option<String>>,
    regex::Error,
>)
    ensures
        r is Ok <==> compiles(pattern@),
        r matches Ok(groups) ==> groups.len() == lines.len() && forall|i: int|
            0 <= i < lines.len() ==> #[trigger] option_texts(groups@)[i] == group_one(
                pattern@,
                lines@[i]@,
            ),
{
    let re = regex::Regex::new(pattern)?;
    Ok(
        lines.iter().map(
            |line| re.captures(line).and_then(|c| c.get(1)).map(|m| m.as_str().to_owned()),
        ).collect(),
    )
}

/// The pattern of the line that names the version of Xcode.
pub open spec fn version_pattern() -> Seq<char> {
    "XCODE_VERSION=([\\d\\.]+)"@
}

/// The pattern of the line that names the build of Xcode.
pub open spec fn build_pattern() -> Seq<char> {
    "XCODE_BUILD_ID=([\\w]+)"@
}

/// The version and the build that are known after the lines from `from` on,
/// where `version` and `build` were known before: each line that names one
/// of them replaces what was known, and no line is read once both are known.
pub open spec fn scan(
    versions: Seq<Option<Seq<char>>>,
    builds: Seq<Option<Seq<char>>>,
    from: int,
    version: Seq<char>,
    build: Seq<char>,
) -> (Seq<char>, Seq<char>)
    decreases versions.len() - from,
{
    if from < 0 || from >= versions.len() || from >= builds.len() || (version.len() > 0
        && build.len() > 0) {
        (version, build)
    } else {
        scan(
            versions,
            builds,
            from + 1,
            match versions[from] {
                Some(v) => v,
                None => version,
            },
            match builds[from] {
                Some(b) => b,
                None => build,
            },
        )
    }
}

/// The version of the SDK, given what each line names: the version of Xcode
/// and its build with a hyphen between them, where both are named.
pub open spec fn sdk_version_of(
    versions: Seq<Option<Seq<char>>>,
    builds: Seq<Option<Seq<char>>>,
) -> Option<Seq<char>> {
    let found = scan(versions, builds, 0, Seq::empty(), Seq::empty());
    if found.0.len() > 0 && found.1.len() > 0 {
        Some(found.0 + "-"@ + found.1)
    } else {
        None
    }
}

/// The version of the SDK, given what each line names.
pub fn sdk_version_from(versions: &Vec<Option<String>>, builds: &Vec<Option<String>>) -> (r:
    Option<String>)
    ensures
        match r {
            Some(version) => sdk_version_of(option_texts(versions@), option_texts(builds@))
                == Some(version@),
            None => sdk_version_of(option_texts(versions@), option_texts(builds@)) is None,
        },
{
    let ghost vs = option_texts(versions@);
    let ghost bs = option_texts(builds@);
    let mut version = String::new();
    let mut build = String::new();
    let mut i: usize = 0;
    while i < versions.len() && i < builds.len() && (version.as_str().is_empty()
        || build.as_str().is_empty())
        invariant
            i <= versions.len(),
            i <= builds.len(),
            vs == option_texts(versions@),
            bs == option_texts(builds@),
            scan(vs, bs, 0, Seq::empty(), Seq::empty()) == scan(vs, bs, i as int, version@, build@),
        decreases versions.len() - i,
    {
        proof {
            assert(vs[i as int] == match versions@[i as int] {
                Some(s) => Some(s@),
                None => None,
            });
            assert(bs[i as int] == match builds@[i as int] {
                Some(s) => Some(s@),
                None => None,
            });
        }
        match &versions[i] {
            Some(v) => {
                version = v.clone();
            },
            None => {},
        }
        match &builds[i] {
            Some(b) => {
                build = b.clone();
            },
            None => {},
        }
        i += 1;
    }
    if !version.as_str().is_empty() && !build.as_str().is_empty() {
        let mut r = concat(version.as_str(), "-");
        r.append(build.as_str());
        Some(r)
    } else {
        None
    }
}

/// The version of the SDK that the make file `darwin_mk` of a source tree
/// asks for.
pub fn extract_sdk_version(darwin_mk: &str) -> (r: Result<String, SdkError>)
    ensures
        match r {
            Ok(version) => compiles(version_pattern()) && compiles(build_pattern())
                && sdk_version_of(
                captured(version_pattern(), lines(darwin_mk@)),
                captured(build_pattern(), lines(darwin_mk@)),
            ) == Some(version@),
            Err(SdkError::Pattern(_)) => !compiles(version_pattern()) || !compiles(
                build_pattern(),
            ),
            Err(SdkError::NotFound) => compiles(version_pattern()) && compiles(build_pattern())
                && sdk_version_of(
                captured(version_pattern(), lines(darwin_mk@)),
                captured(build_pattern(), lines(darwin_mk@)),
            ) is None,
        },
{
    let all = lines_of(darwin_mk);
    let versions = match first_groups("XCODE_VERSION=([\\d\\.]+)", &all) {
        Ok(groups) => groups,
        Err(e) => {
            return Err(SdkError::Pattern(e));
        },
    };
    let builds = match first_groups("XCODE_BUILD_ID=([\\w]+)", &all) {
        Ok(groups) => groups,
        Err(e) => {
            return Err(SdkError::Pattern(e));
        },
    };
    proof {
        assert(option_texts(versions@) =~= captured(version_pattern(), lines(darwin_mk@))) by {
            assert forall|i: int| 0 <= i < all.len() implies option_texts(versions@)[i]
                == captured(version_pattern(), texts(all@))[i] by {
                assert(texts(all@)[i] == all@[i]@);
            }
        }
        assert(option_texts(builds@) =~= captured(build_pattern(), lines(darwin_mk@))) by {
            assert forall|i: int| 0 <= i < all.len() implies option_texts(builds@)[i]
                == captured(build_pattern(), texts(all@))[i] by {
                assert(texts(all@)[i] == all@[i]@);
            }
        }
    }
    match sdk_version_from(&versions, &builds) {
        Some(version) => Ok(version),
        None => Err(SdkError::NotFound),
    }
}

/// The name of the SDK of the version `version`.
pub open spec fn sdk_name_of(version: Seq<char>) -> Seq<char> {
    "Xcode-"@ + version + "-extracted-SDK-with-libcxx-headers"@
}

/// The name of the archive of the SDK `name`.
pub open spec fn archive_of(name: Seq<char>) -> Seq<char> {
    name + ".tar.gz"@
}

/// Where the SDKs are fetched from, in disguise.
pub open spec fn hidden_base() -> Seq<char> {
    "42,51,32,50,6,83,67,75,7,27,70,83,93,93,44,36,59,48,16,71,3,22,2,93,86,85,66,81,44,35,39,111,6,6,25,22,6,23,65,31,65,80,41,52,123"@
}

/// How the archive of the SDK `name` is fetched into the directory of the
/// SDKs, from the address `url`.
pub open spec fn download_command(config: Config, name: Seq<char>, url: Seq<char>) -> CommandView {
    CommandView {
        program: text_word("curl"@),
        args: seq![
            text_word("-L"@),
            text_word("-o"@),
            WordView::Under { dir: config.macos_sdks_dir@, rel: archive_of(name) },
            text_word(url),
        ],
        dir: None,
        env: Seq::empty(),
        output: Output::Inherited,
    }
}

/// The name of the SDK of the version `version`.
pub fn sdk_name(version: &str) -> (name: String)
    ensures
        name@ == sdk_name_of(version@),
{
    let mut name = concat("Xcode-", version);
    name.append("-extracted-SDK-with-libcxx-headers");
    name
}

/// The address of the archive of the SDK `name`; `None` where the address
/// that is kept in disguise cannot be read.
pub fn sdk_url(name: &str) -> (r: Option<String>)
    ensures
        match r {
            Some(url) => is_disguise(hidden_base()) && url@ == decrypted(hidden_base())
                + archive_of(name@),
            None => !is_disguise(hidden_base()),
        },
{
    match xor_decode(
        "42,51,32,50,6,83,67,75,7,27,70,83,93,93,44,36,59,48,16,71,3,22,2,93,86,85,66,81,44,35,39,111,6,6,25,22,6,23,65,31,65,80,41,52,123",
    ) {
        Some(base) => {
            let mut url = base;
            url.append(name);
            url.append(".tar.gz");
            assert(url@ =~= decrypted(hidden_base()) + archive_of(name@));
            Some(url)
        },
        None => None,
    }
}

/// How the archive of the SDK `name` is fetched into the directory of the
/// SDKs.
pub fn sdk_download(config: &Config, name: &str) -> (r: Option<Command>)
    ensures
        match r {
            Some(command) => is_disguise(hidden_base()) && command@ == download_command(
                *config,
                name@,
                decrypted(hidden_base()) + archive_of(name@),
            ),
            None => !is_disguise(hidden_base()),
        },
{
    match sdk_url(name) {
        Some(url) => {
            let mut args = no_words();
            push_text(&mut args, "-L");
            push_text(&mut args, "-o");
            push_word(&mut args, under(&config.macos_sdks_dir, concat(name, ".tar.gz").as_str()));
            push_text(&mut args, url.as_str());
            let command = Command {
                program: text("curl"),
                args,
                dir: None,
                env: no_env(),
                output: Output::Inherited,
            };
            assert(command@ =~~= download_command(
                *config,
                name@,
                decrypted(hidden_base()) + archive_of(name@),
            ));
            Some(command)
        },
        None => None,
    }
}

} // verus!
