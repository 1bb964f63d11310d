//! Where the configuration file is looked for.
//!
//! A path is the sequence of its bytes, as the file system has it.

use crate::text::{fields, join, joined_parts_are_the_fields, lemma_trim_drops_last, lines, lines_end_at_line_feeds, same_text, split_fields, split_lines, trim, trimmed, views};
use vstd::prelude::*;
use vstd::string::StrSliceExecFns;
use vstd::utf8::{encode_utf8, is_ascii_chars_encode_utf8};

verus! {

/// The places that can settle the path of the configuration file, from the strongest to
/// the weakest.
#[derive(Debug, Clone, Copy)]
pub struct ConfigPathSources<'a> {
    /// The file that the user names.
    pub explicit_config: Option<&'a [u8]>,
    /// The file that the installation names.
    pub install_pointer_config: Option<&'a [u8]>,
    /// The home directory of the user behind `sudo`.
    pub sudo_user_home: Option<&'a [u8]>,
    /// The directory for configuration files.
    pub xdg_config_home: Option<&'a [u8]>,
    /// The home directory of the user.
    pub home: Option<&'a [u8]>,
}

impl<'a> Default for ConfigPathSources<'a> {
    fn default() -> (sources: Self)
        ensures
            sources.explicit_config is None,
            sources.install_pointer_config is None,
            sources.sudo_user_home is None,
            sources.xdg_config_home is None,
            sources.home is None,
    {
        ConfigPathSources {
            explicit_config: None,
            install_pointer_config: None,
            sudo_user_home: None,
            xdg_config_home: None,
            home: None,
        }
    }
}

/// Why there is no path.
#[derive(Debug, Clone, Copy, PartialEq, Eq, Structural)]
pub enum ConfigPathError {
    /// None of the places settles it.
    NotConfigured,
}

impl ConfigPathError {
    /// The error in words.
    pub open spec fn text(self) -> Seq<char> {
        "could not resolve a config path from override, XDG, or HOME"@
    }

    /// The error in words.
    pub fn to_string(&self) -> (text: String)
        ensures
            text@ == self.text(),
    {
        "could not resolve a config path from override, XDG, or HOME".to_owned()
    }
}

/// The path of the entry `name` in the directory `base`. `name` is relative.
pub open spec fn joined(base: Seq<u8>, name: Seq<u8>) -> Seq<u8> {
    if base.len() == 0 || base.last() == 0x2f {
        base + name
    } else {
        base + seq![0x2fu8] + name
    }
}

/// The configuration file below a directory for configuration files.
pub open spec fn config_file_in(dir: Seq<u8>) -> Seq<u8> {
    joined(joined(dir, encode_utf8("lg-buddy"@)), encode_utf8("config.env"@))
}

/// The configuration file below a home directory.
pub open spec fn config_file_in_home(home: Seq<u8>) -> Seq<u8> {
    config_file_in(joined(home, encode_utf8(".config"@)))
}

/// The path that the strongest place settles.
pub open spec fn config_path(
    explicit_config: Option<Seq<u8>>,
    install_pointer_config: Option<Seq<u8>>,
    sudo_user_home: Option<Seq<u8>>,
    xdg_config_home: Option<Seq<u8>>,
    home: Option<Seq<u8>>,
) -> Result<Seq<u8>, ConfigPathError> {
    if let Some(path) = explicit_config {
        Ok(path)
    } else if let Some(path) = install_pointer_config {
        Ok(path)
    } else if let Some(dir) = sudo_user_home {
        Ok(config_file_in_home(dir))
    } else if let Some(dir) = xdg_config_home {
        Ok(config_file_in(dir))
    } else if let Some(dir) = home {
        Ok(config_file_in_home(dir))
    } else {
        Err(ConfigPathError::NotConfigured)
    }
}

/// The bytes of an optional path.
pub open spec fn slice_view(path: Option<&[u8]>) -> Option<Seq<u8>> {
    match path {
        Some(bytes) => Some(bytes@),
        None => None,
    }
}

/// The bytes of an optional path.
pub open spec fn bytes_view(path: Option<Vec<u8>>) -> Option<Seq<u8>> {
    match path {
        Some(bytes) => Some(bytes@),
        None => None,
    }
}

/// The characters of an optional text.
pub open spec fn text_view(text: Option<String>) -> Option<Seq<char>> {
    match text {
        Some(characters) => Some(characters@),
        None => None,
    }
}

/// A path or the lack of one, over the bytes of the path.
pub open spec fn path_result(result: Result<Vec<u8>, ConfigPathError>) -> Result<
    Seq<u8>,
    ConfigPathError,
> {
    match result {
        Ok(path) => Ok(path@),
        Err(error) => Err(error),
    }
}

/// A copy of `bytes`.
pub(crate) fn copied(bytes: &[u8]) -> (copy: Vec<u8>)
    ensures
        copy@ == bytes@,
{
    let mut copy: Vec<u8> = Vec::new();
    copy.extend_from_slice(bytes);
    assert(copy@ =~= bytes@);
    copy
}

/// Goes down from `path` into the entry `name`.
fn descend(path: &mut Vec<u8>, name: &str)
    ensures
        final(path)@ == joined(old(path)@, encode_utf8(name@)),
{
    if path.len() > 0 && path[path.len() - 1] != 0x2f {
        path.push(0x2f);
    }
    path.extend_from_slice(name.as_bytes());
    assert(path@ =~= joined(old(path)@, encode_utf8(name@)));
}

/// The configuration file below a directory for configuration files.
fn file_in(dir: &[u8]) -> (path: Vec<u8>)
    ensures
        path@ == config_file_in(dir@),
{
    let mut path = copied(dir);
    descend(&mut path, "lg-buddy");
    descend(&mut path, "config.env");
    path
}

/// The configuration file below a home directory.
fn file_in_home(home: &[u8]) -> (path: Vec<u8>)
    ensures
        path@ == config_file_in_home(home@),
{
    let mut path = copied(home);
    descend(&mut path, ".config");
    descend(&mut path, "lg-buddy");
    descend(&mut path, "config.env");
    path
}

/// The path that the strongest of `sources` settles.
pub fn resolve_config_path(sources: ConfigPathSources<'_>) -> (path: Result<
    Vec<u8>,
    ConfigPathError,
>)
    ensures
        path_result(path) == config_path(
            slice_view(sources.explicit_config),
            slice_view(sources.install_pointer_config),
            slice_view(sources.sudo_user_home),
            slice_view(sources.xdg_config_home),
            slice_view(sources.home),
        ),
{
    if let Some(path) = sources.explicit_config {
        return Ok(copied(path));
    }
    if let Some(path) = sources.install_pointer_config {
        return Ok(copied(path));
    }
    if let Some(path) = sources.sudo_user_home {
        return Ok(file_in_home(path));
    }
    if let Some(path) = sources.xdg_config_home {
        return Ok(file_in(path));
    }
    if let Some(path) = sources.home {
        return Ok(file_in_home(path));
    }
    Err(ConfigPathError::NotConfigured)
}

/// The home directory in a line of the user database: its sixth field, where it has one
/// that is not empty.
pub open spec fn home_field(line: Seq<char>) -> Option<Seq<char>> {
    let parts = fields(line, ':');
    if parts.len() > 5 && parts[5].len() > 0 {
        Some(parts[5])
    } else {
        None
    }
}

/// The home directory of `user`: that of the first line whose first field is `user`.
pub open spec fn home_of(entries: Seq<Seq<char>>, user: Seq<char>) -> Option<Seq<char>>
    decreases entries.len(),
{
    if entries.len() == 0 {
        None
    } else if fields(entries[0], ':')[0] == user {
        home_field(entries[0])
    } else {
        home_of(entries.skip(1), user)
    }
}

/// The bytes of an optional text.
pub open spec fn encoded(text: Option<Seq<char>>) -> Option<Seq<u8>> {
    match text {
        Some(characters) => Some(encode_utf8(characters)),
        None => None,
    }
}

/// The home directory of `user` in the user database.
pub fn parse_home_from_passwd_entries(contents: &str, user: &str) -> (home: Option<Vec<u8>>)
    ensures
        bytes_view(home) == encoded(home_of(lines(contents@), user@)),
{
    let all = split_lines(contents);
    let ghost whole = lines(contents@);
    assert(whole.skip(0) =~= whole);
    for i in 0..all.len()
        invariant
            whole == lines(contents@),
            views(all@) == whole,
            home_of(whole, user@) == home_of(whole.skip(i as int), user@),
    {
        let line = all[i];
        let ghost rest = whole.skip(i as int);
        assert(views(all@)[i as int] == line@);
        assert(rest[0] == line@);
        assert(rest.skip(1) =~= whole.skip(i + 1));
        let parts = split_fields(line, ':');
        proof {
            crate::text::fields_join(line@, ':');
            assert(views(parts@).len() == parts.len());
            assert(views(parts@)[0] == parts[0]@);
        }
        if same_text(parts[0], user) {
            if parts.len() <= 5 {
                return None;
            }
            assert(views(parts@)[5] == parts[5]@);
            if parts[5].is_empty() {
                return None;
            }
            return Some(parts[5].as_bytes_vec());
        }
    }
    None
}

/// The path that the pointer file of the installation names: its first line without the
/// whitespace around it, where that leaves anything.
pub open spec fn pointer_path(contents: Seq<char>) -> Option<Seq<char>> {
    let all = lines(contents);
    if all.len() > 0 && trim(all[0]).len() > 0 {
        Some(trim(all[0]))
    } else {
        None
    }
}

/// The path that the pointer file of the installation names, where it could be read.
pub fn load_install_pointer_config(contents: Option<&str>) -> (path: Option<Vec<u8>>)
    ensures
        bytes_view(path) == (match contents {
            Some(text) => encoded(pointer_path(text@)),
            None => None,
        }),
{
    match contents {
        None => None,
        Some(text) => {
            let all = split_lines(text);
            assert(views(all@).len() == all.len());
            if all.len() == 0 {
                return None;
            }
            assert(views(all@)[0] == all[0]@);
            let path = trimmed(all[0]);
            if path.is_empty() {
                None
            } else {
                Some(path.as_bytes_vec())
            }
        },
    }
}

/// The home directory of the user behind `sudo`, where there is one other than `root` and
/// the user database could be read.
pub open spec fn sudo_home(sudo_user: Option<Seq<char>>, passwd: Option<Seq<char>>) -> Option<
    Seq<char>,
> {
    match (sudo_user, passwd) {
        (Some(user), Some(contents)) => if user.len() == 0 || user == "root"@ {
            None
        } else {
            home_of(lines(contents), user)
        },
        _ => None,
    }
}

/// The home directory of the user behind `sudo`.
pub fn resolve_sudo_user_home(sudo_user: &Option<String>, passwd: &Option<String>) -> (home: Option<
    Vec<u8>,
>)
    ensures
        bytes_view(home) == encoded(sudo_home(text_view(*sudo_user), text_view(*passwd))),
{
    match (sudo_user, passwd) {
        (Some(user), Some(contents)) => if user.as_str().is_empty() || same_text(
            user.as_str(),
            "root",
        ) {
            None
        } else {
            parse_home_from_passwd_entries(contents.as_str(), user.as_str())
        },
        _ => None,
    }
}

/// What the surroundings of the process say about the configuration file.
#[derive(Debug, PartialEq, Eq)]
pub struct PathEnvironment {
    /// The variable that names the file.
    pub explicit_config: Option<Vec<u8>>,
    /// The text of the pointer file of the installation.
    pub install_pointer: Option<String>,
    /// The variable that names the user behind `sudo`.
    pub sudo_user: Option<String>,
    /// The text of the user database.
    pub passwd: Option<String>,
    /// The variable that names the directory for configuration files.
    pub xdg_config_home: Option<Vec<u8>>,
    /// The variable that names the home directory.
    pub home: Option<Vec<u8>>,
}

impl PathEnvironment {
    /// The path of the configuration file in these surroundings.
    pub open spec fn path(self) -> Result<Seq<u8>, ConfigPathError> {
        config_path(
            bytes_view(self.explicit_config),
            match self.install_pointer {
                Some(contents) => encoded(pointer_path(contents@)),
                None => None,
            },
            encoded(sudo_home(text_view(self.sudo_user), text_view(self.passwd))),
            bytes_view(self.xdg_config_home),
            bytes_view(self.home),
        )
    }
}

/// An optional path, borrowed.
fn borrowed<'a>(path: &'a Option<Vec<u8>>) -> (slice: Option<&'a [u8]>)
    ensures
        slice_view(slice) == bytes_view(*path),
{
    match path {
        Some(bytes) => Some(bytes.as_slice()),
        None => None,
    }
}

/// The path of the configuration file in the given surroundings.
pub fn resolve_config_path_from_env(env: &PathEnvironment) -> (path: Result<
    Vec<u8>,
    ConfigPathError,
>)
    ensures
        path_result(path) == env.path(),
{
    let install_pointer_config = load_install_pointer_config(
        match &env.install_pointer {
            Some(contents) => Some(contents.as_str()),
            None => None,
        },
    );
    let sudo_user_home = resolve_sudo_user_home(&env.sudo_user, &env.passwd);

    resolve_config_path(
        ConfigPathSources {
            explicit_config: borrowed(&env.explicit_config),
            install_pointer_config: borrowed(&install_pointer_config),
            sudo_user_home: borrowed(&sudo_user_home),
            xdg_config_home: borrowed(&env.xdg_config_home),
            home: borrowed(&env.home),
        },
    )
}

/// A place settles the path where no stronger one does, whatever the weaker ones say; there
/// is no path exactly where no place settles one.
pub proof fn strongest_place_settles(
    explicit_config: Option<Seq<u8>>,
    install_pointer_config: Option<Seq<u8>>,
    sudo_user_home: Option<Seq<u8>>,
    xdg_config_home: Option<Seq<u8>>,
    home: Option<Seq<u8>>,
    path: Seq<u8>,
)
    ensures
        config_path(
            Some(path),
            install_pointer_config,
            sudo_user_home,
            xdg_config_home,
            home,
        ) == Ok::<Seq<u8>, ConfigPathError>(path),
        config_path(None, Some(path), sudo_user_home, xdg_config_home, home) == Ok::<
            Seq<u8>,
            ConfigPathError,
        >(path),
        config_path(None, None, Some(path), xdg_config_home, home) == Ok::<
            Seq<u8>,
            ConfigPathError,
        >(config_file_in_home(path)),
        config_path(None, None, None, Some(path), home) == Ok::<Seq<u8>, ConfigPathError>(
            config_file_in(path),
        ),
        config_path(None, None, None, None, Some(path)) == Ok::<Seq<u8>, ConfigPathError>(
            config_file_in_home(path),
        ),
        config_path(
            explicit_config,
            install_pointer_config,
            sudo_user_home,
            xdg_config_home,
            home,
        ) is Err <==> explicit_config is None && install_pointer_config is None
            && sudo_user_home is None && xdg_config_home is None && home is None,
{
}

/// The file is below the directory, under its usual name, with one separator in between where
/// the directory does not bring it.
pub proof fn config_file_is_below_the_directory(dir: Seq<u8>)
    ensures
        ({
            let below = if dir.len() == 0 || dir.last() == 0x2f {
                dir
            } else {
                dir.push(0x2f)
            };
            &&& config_file_in(dir) == below + encode_utf8("lg-buddy/config.env"@)
            &&& config_file_in_home(dir) == below + encode_utf8(".config/lg-buddy/config.env"@)
        }),
{
    reveal_strlit("lg-buddy");
    reveal_strlit("config.env");
    reveal_strlit(".config");
    reveal_strlit("lg-buddy/config.env");
    reveal_strlit(".config/lg-buddy/config.env");
    is_ascii_chars_encode_utf8("lg-buddy"@);
    is_ascii_chars_encode_utf8("config.env"@);
    is_ascii_chars_encode_utf8(".config"@);
    is_ascii_chars_encode_utf8("lg-buddy/config.env"@);
    is_ascii_chars_encode_utf8(".config/lg-buddy/config.env"@);
    let below = if dir.len() == 0 || dir.last() == 0x2f {
        dir
    } else {
        dir.push(0x2f)
    };
    let app = joined(dir, encode_utf8("lg-buddy"@));
    assert(app =~= below + encode_utf8("lg-buddy"@));
    assert(app.last() == 'y' as u8);
    assert(config_file_in(dir) =~= below + encode_utf8("lg-buddy/config.env"@));
    let home = joined(dir, encode_utf8(".config"@));
    assert(home =~= below + encode_utf8(".config"@));
    assert(home.last() == 'g' as u8);
    let nested = joined(home, encode_utf8("lg-buddy"@));
    assert(nested =~= home.push(0x2f) + encode_utf8("lg-buddy"@));
    assert(nested.last() == 'y' as u8);
    assert(config_file_in_home(dir) =~= below + encode_utf8(".config/lg-buddy/config.env"@));
}

/// The first entry of a user decides: its sixth field is the home directory, where it has one
/// that is not empty; the entries of other users do not matter.
pub proof fn first_entry_of_the_user_decides(
    parts: Seq<Seq<char>>,
    later: Seq<Seq<char>>,
    user: Seq<char>,
)
    requires
        parts.len() > 0,
        forall|i: int| 0 <= i < parts.len() ==> !(#[trigger] parts[i]).contains(':'),
    ensures
        home_of(seq![join(parts, ':')] + later, user) == if parts[0] != user {
            home_of(later, user)
        } else if parts.len() > 5 && parts[5].len() > 0 {
            Some(parts[5])
        } else {
            None
        },
        home_of(seq![], user) is None,
{
    joined_parts_are_the_fields(parts, ':');
    let entries = seq![join(parts, ':')] + later;
    assert(entries.skip(1) =~= later);
}

/// The pointer file names what its first line holds, without the whitespace around it; the
/// later lines do not matter, and a blank first line names nothing.
pub proof fn first_line_of_the_pointer_decides(head: Seq<char>, tail: Seq<char>)
    requires
        !head.contains('\n'),
    ensures
        pointer_path(head + seq!['\n'] + tail) == if trim(head).len() > 0 {
            Some(trim(head))
        } else {
            None
        },
        pointer_path(head) == if trim(head).len() > 0 {
            Some(trim(head))
        } else {
            None
        },
{
    lines_end_at_line_feeds(head, tail);
    if head.len() > 0 && head.last() == '\r' {
        lemma_trim_drops_last(head);
    }
    if head.len() > 0 {
        assert(lines(head)[0] == head);
    }
    let all = lines(head + seq!['\n'] + tail);
    assert(all.len() > 0);
}

/// The user behind `sudo` counts where there is one that is not `root`, and the user database
/// can be read.
pub proof fn root_behind_sudo_does_not_count(user: Seq<char>, contents: Seq<char>)
    ensures
        sudo_home(None, Some(contents)) is None,
        sudo_home(Some(user), None) is None,
        sudo_home(Some(seq![]), Some(contents)) is None,
        sudo_home(Some("root"@), Some(contents)) is None,
        user.len() > 0 && user != "root"@ ==> sudo_home(Some(user), Some(contents)) == home_of(
            lines(contents),
            user,
        ),
{
}

/// The surroundings settle the path by the strongest place that they name: the file of the
/// user, that of the installation, the home directory of the user behind `sudo`, the directory
/// for configuration files, the home directory.
pub proof fn surroundings_settle_the_path(env: PathEnvironment)
    ensures
        match (
            env.explicit_config,
            env.install_pointer,
            sudo_home(text_view(env.sudo_user), text_view(env.passwd)),
            env.xdg_config_home,
            env.home,
        ) {
            (Some(path), _, _, _, _) => env.path() == Ok::<Seq<u8>, ConfigPathError>(path@),
            (None, pointer, sudo, xdg, home) => if pointer is Some && pointer_path(
                pointer->Some_0@,
            ) is Some {
                env.path() == Ok::<Seq<u8>, ConfigPathError>(
                    encode_utf8(pointer_path(pointer->Some_0@)->Some_0),
                )
            } else if sudo is Some {
                env.path() == Ok::<Seq<u8>, ConfigPathError>(
                    config_file_in_home(encode_utf8(sudo->Some_0)),
                )
            } else if xdg is Some {
                env.path() == Ok::<Seq<u8>, ConfigPathError>(config_file_in(xdg->Some_0@))
            } else if home is Some {
                env.path() == Ok::<Seq<u8>, ConfigPathError>(config_file_in_home(home->Some_0@))
            } else {
                env.path() == Err::<Seq<u8>, ConfigPathError>(ConfigPathError::NotConfigured)
            },
        },
{
}

/// Paths and texts are told in full, and so is their lack.
pub proof fn paths_are_told_in_full(path: Vec<u8>, bytes: &[u8], text: String, error: ConfigPathError)
    ensures
        path_result(Ok(path)) == Ok::<Seq<u8>, ConfigPathError>(path@),
        path_result(Err(error)) == Err::<Seq<u8>, ConfigPathError>(error),
        bytes_view(Some(path)) == Some(path@),
        bytes_view(None) is None,
        slice_view(Some(bytes)) == Some(bytes@),
        slice_view(None) is None,
        text_view(Some(text)) == Some(text@),
        text_view(None) is None,
        encoded(Some(text@)) == Some(encode_utf8(text@)),
        encoded(None) is None,
{
}

} // verus!
