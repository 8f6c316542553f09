//! How the options of the command line change the configuration and choose
//! the mode of a run.

use vstd::prelude::*;
use vstd::string::StringExecFns;
use crate::argparse::Cli;
use crate::config::{with_path, without_path, Config};
use crate::provider::ExecuteType;
use crate::render::VerboseMode;
use crate::text::{
    chars_of, contains, fields, has_infix, replace_char, replaced, split_fields, texts,
};

verus! {

/// The greatest search depth that can be configured.
pub const MAX_SEARCH_DEPTH: i8 = 30;

/// The least search depth that can be configured.
pub const MIN_SEARCH_DEPTH: i8 = 1;

/// The depth below which no entry is visited.
pub const MAX_SEARCH_HEIGHT: i8 = 0;

/// Whether the configuration has to be written back.
#[derive(Clone, Copy, Debug, PartialEq, Eq, Structural)]
pub enum ConfigState {
    NoConfigChange,
    ConfigChange,
}

/// Remembers whether an option changed the configuration.
pub struct ConfigStateHandler {
    pub state: ConfigState,
}

impl ConfigStateHandler {
    pub fn new() -> (handler: ConfigStateHandler)
        ensures
            handler.state == ConfigState::NoConfigChange,
    {
        ConfigStateHandler { state: ConfigState::NoConfigChange }
    }

    /// Records a change.
    pub fn config_change(&mut self) -> (this: &mut Self)
        ensures
            *final(self) == *final(this),
            this.state == ConfigState::ConfigChange,
    {
        self.state = ConfigState::ConfigChange;
        self
    }
}

/// The path conventions of the platform a run is on.
#[derive(Clone, Copy, Debug, PartialEq, Eq, Structural)]
pub enum TargetFamily {
    Unix,
    Windows,
}

/// A path in the form the platform writes it: on Windows every slash is a
/// backslash, elsewhere the path is as given.
pub open spec fn normalized(path: Seq<char>, family: TargetFamily) -> Seq<char> {
    match family {
        TargetFamily::Unix => path,
        TargetFamily::Windows => replaced(path, '/', '\\'),
    }
}

/// Each of `paths` in the form the platform writes it.
pub open spec fn normalized_all(paths: Seq<Seq<char>>, family: TargetFamily) -> Seq<Seq<char>> {
    Seq::new(paths.len(), |i: int| normalized(paths[i], family))
}

/// `roots` after each of `new` has been added in turn.
pub open spec fn with_paths(roots: Seq<Seq<char>>, new: Seq<Seq<char>>) -> Seq<Seq<char>>
    decreases new.len(),
{
    if new.len() == 0 {
        roots
    } else {
        with_path(with_paths(roots, new.drop_last()), new.last())
    }
}

/// Writes `path` the way the platform does.
pub fn normalize_path_string(path: &String, family: TargetFamily) -> (out: String)
    ensures
        out@ == normalized(path@, family),
{
    match family {
        TargetFamily::Unix => path.clone(),
        TargetFamily::Windows => replace_char(path.as_str(), '/', '\\'),
    }
}

/// Writes `path` the way the platform does.
pub fn normalize_path_str(path: &str, family: TargetFamily) -> (out: String)
    ensures
        out@ == normalized(path@, family),
{
    match family {
        TargetFamily::Unix => String::from_str(path),
        TargetFamily::Windows => replace_char(path, '/', '\\'),
    }
}

/// Adds each of `items`, normalized, to the search roots, and records a
/// change for each.
fn add_paths(
    config: &mut Config,
    state_handler: &mut ConfigStateHandler,
    items: &Vec<String>,
    family: TargetFamily,
)
    ensures
        final(config).roots() == with_paths(
            old(config).roots(),
            normalized_all(texts(items@), family),
        ),
        final(config).same_settings(old(config)),
        final(state_handler).state == if items@.len() > 0 {
            ConfigState::ConfigChange
        } else {
            old(state_handler).state
        },
{
    let ghost wanted = normalized_all(texts(items@), family);
    let ghost start = config.roots();
    let mut i: usize = 0;
    assert(wanted.subrange(0, 0) =~= Seq::<Seq<char>>::empty());
    while i < items.len()
        invariant
            i <= items.len(),
            wanted == normalized_all(texts(items@), family),
            start == old(config).roots(),
            config.roots() == with_paths(start, wanted.subrange(0, i as int)),
            config.same_settings(old(config)),
            state_handler.state == if i > 0 {
                ConfigState::ConfigChange
            } else {
                old(state_handler).state
            },
        decreases items.len() - i,
    {
        let fp = normalize_path_string(&items[i], family);
        assert(wanted.subrange(0, i + 1).drop_last() =~= wanted.subrange(0, i as int));
        assert(wanted.subrange(0, i + 1).last() == fp@);
        config.add_path(fp.as_str());
        state_handler.config_change();
        i += 1;
    }
    assert(wanted.subrange(0, i as int) =~= wanted);
}

/// Adds the paths given one by one to the search roots.
pub fn path(
    cli: &Cli,
    config: &mut Config,
    state_handler: &mut ConfigStateHandler,
    family: TargetFamily,
)
    ensures
        final(config).same_settings(old(config)),
        match cli.path {
            Some(paths) => {
                &&& final(config).roots() == with_paths(
                    old(config).roots(),
                    normalized_all(texts(paths@), family),
                )
                &&& final(state_handler).state == if paths@.len() > 0 {
                    ConfigState::ConfigChange
                } else {
                    old(state_handler).state
                }
            },
            None => {
                &&& final(config).roots() == old(config).roots()
                &&& final(state_handler).state == old(state_handler).state
            },
        },
{
    match &cli.path {
        Some(paths) => add_paths(config, state_handler, paths, family),
        None => {},
    }
}

/// Adds the paths given as one text, with single spaces between them, to
/// the search roots. Two spaces in a row hold an empty path between them,
/// which is added like any other.
pub fn paths(
    cli: &Cli,
    config: &mut Config,
    state_handler: &mut ConfigStateHandler,
    family: TargetFamily,
)
    ensures
        final(config).same_settings(old(config)),
        match cli.paths {
            Some(joined) => {
                &&& final(config).roots() == with_paths(
                    old(config).roots(),
                    normalized_all(fields(joined@, ' '), family),
                )
                &&& final(state_handler).state == ConfigState::ConfigChange
            },
            None => {
                &&& final(config).roots() == old(config).roots()
                &&& final(state_handler).state == old(state_handler).state
            },
        },
{
    match &cli.paths {
        Some(joined) => {
            let paths_buf = split_fields(joined.as_str(), ' ');
            assert(paths_buf@.len() == texts(paths_buf@).len());
            add_paths(config, state_handler, &paths_buf, family);
        },
        None => {},
    }
}

/// Drops the path given for removal from the search roots.
pub fn remove_path(
    cli: &Cli,
    config: &mut Config,
    state_handler: &mut ConfigStateHandler,
    family: TargetFamily,
)
    ensures
        final(config).same_settings(old(config)),
        match cli.remove_path {
            Some(fp) => {
                &&& final(config).roots() == without_path(
                    old(config).roots(),
                    normalized(fp@, family),
                )
                &&& final(state_handler).state == ConfigState::ConfigChange
            },
            None => {
                &&& final(config).roots() == old(config).roots()
                &&& final(state_handler).state == old(state_handler).state
            },
        },
{
    match &cli.remove_path {
        Some(fp) => {
            let fp = normalize_path_str(fp.as_str(), family);
            config.remove_path(fp.as_str());
            state_handler.config_change();
        },
        None => {},
    }
}

/// Drops every search root where that was asked for.
pub fn purge_paths(cli: &Cli, config: &mut Config, state_handler: &mut ConfigStateHandler)
    ensures
        final(config).same_settings(old(config)),
        final(config).roots() == if cli.purge_paths {
            Seq::<Seq<char>>::empty()
        } else {
            old(config).roots()
        },
        final(state_handler).state == if cli.purge_paths {
            ConfigState::ConfigChange
        } else {
            old(state_handler).state
        },
{
    if cli.purge_paths {
        config.purge_paths();
        state_handler.config_change();
    }
}

/// The verbosity that the number of verbose flags stands for.
pub fn verbose(cli: &Cli) -> (mode: VerboseMode)
    ensures
        mode == match cli.verbose {
            1u8 => VerboseMode::Verbose1,
            2u8 => VerboseMode::Verbose2,
            _ => VerboseMode::Nothing,
        },
{
    match cli.verbose {
        1 => VerboseMode::Verbose1,
        2 => VerboseMode::Verbose2,
        _ => VerboseMode::Nothing,
    }
}

/// Where the roots of the run come from.
pub fn current_dir(cli: &Cli) -> (execute_type: ExecuteType)
    ensures
        execute_type == if cli.current_dir {
            ExecuteType::CurrentPath
        } else {
            ExecuteType::FromConfig
        },
{
    match cli.current_dir {
        true => ExecuteType::CurrentPath,
        false => ExecuteType::FromConfig,
    }
}

/// Why an option was refused, or the run cannot start.
#[derive(Clone, Copy, Debug, PartialEq, Eq, Structural)]
pub enum OptionError {
    /// The value given for the ASCII mode is neither `true` nor `false`.
    UnknownAsciiMode,
    /// The search depth given is not between the least and the greatest.
    DepthOutOfBounds,
    /// The configuration was written by an unknown version.
    UnknownVersion,
    /// The configuration was written by another version.
    OutdatedConfig,
}

impl OptionError {
    /// The text that tells the user what went wrong.
    pub fn message(&self) -> (text: String)
        ensures
            text@ == match self {
                OptionError::UnknownAsciiMode => "Unkown value. Try `true` or `false`"@,
                OptionError::DepthOutOfBounds => "Provided search depth is out of bounds. Please choose a number from 1 to 30"@,
                OptionError::UnknownVersion => "The configuration file in `$HOME/.config/gst/gst.json` contains an unknown version. Consider to delete the config and run this program again, to build a new one."@,
                OptionError::OutdatedConfig => "The configuration file in `$HOME/.config/gst/gst.json` is too old. Please remove it, and run this programm again."@,
            },
    {
        match self {
            OptionError::UnknownAsciiMode => String::from_str(
                "Unkown value. Try `true` or `false`",
            ),
            OptionError::DepthOutOfBounds => String::from_str(
                "Provided search depth is out of bounds. Please choose a number from 1 to 30",
            ),
            OptionError::UnknownVersion => String::from_str(
                "The configuration file in `$HOME/.config/gst/gst.json` contains an unknown version. Consider to delete the config and run this program again, to build a new one.",
            ),
            OptionError::OutdatedConfig => String::from_str(
                "The configuration file in `$HOME/.config/gst/gst.json` is too old. Please remove it, and run this programm again.",
            ),
        }
    }
}

/// The lower-case form of a text, as the Unicode tables of the standard
/// library give it.
pub uninterp spec fn lowercase_of(text: Seq<char>) -> Seq<char>;

/// The lower-case form of `text`. This is `str::to_lowercase` of the
/// standard library; all that is believed of it is that its result depends
/// on the characters of `text` alone.
#[verifier::external_body]
fn to_lowercase(text: &str) -> (lowered: String)
    ensures
        lowered@ == lowercase_of(text@),
{
    text.to_lowercase()
}

/// What a value given for the ASCII mode asks for.
#[derive(Clone, Copy, Debug, PartialEq, Eq, Structural)]
pub enum AsciiChoice {
    /// Use ASCII glyphs.
    Enable,
    /// Use Unicode glyphs.
    Disable,
    /// Nothing was asked for.
    Keep,
    /// The value is not understood.
    Unknown,
}

/// What `value`, whose lower-case form is `lowered`, asks for.
pub open spec fn ascii_choice_of(value: Seq<char>, lowered: Seq<char>) -> AsciiChoice {
    if lowered == "true"@ {
        AsciiChoice::Enable
    } else if lowered == "false"@ {
        AsciiChoice::Disable
    } else if value.len() > 0 {
        AsciiChoice::Unknown
    } else {
        AsciiChoice::Keep
    }
}

/// Reads a value given for the ASCII mode, together with its lower-case
/// form.
pub fn ascii_choice(value: &str, lowered: &str) -> (choice: AsciiChoice)
    ensures
        choice == ascii_choice_of(value@, lowered@),
{
    let lowered = String::from_str(lowered);
    if lowered == String::from_str("true") {
        AsciiChoice::Enable
    } else if lowered == String::from_str("false") {
        AsciiChoice::Disable
    } else if !value.is_empty() {
        AsciiChoice::Unknown
    } else {
        AsciiChoice::Keep
    }
}

/// The value given for the ASCII mode, or the empty text.
pub open spec fn ascii_value(cli: &Cli) -> Seq<char> {
    match cli.ascii_mode {
        Some(value) => value@,
        None => Seq::empty(),
    }
}

/// Switches between ASCII and Unicode glyphs where that was asked for. The
/// value is read without regard to case; one that is neither `true` nor
/// `false` is refused and changes nothing.
pub fn ascii_mode(
    cli: &Cli,
    config: &mut Config,
    state_handler: &mut ConfigStateHandler,
) -> (done: Result<(), OptionError>)
    ensures
        final(config).version == old(config).version,
        final(config).search_depth == old(config).search_depth,
        final(config).project_paths == old(config).project_paths,
        match ascii_choice_of(ascii_value(cli), lowercase_of(ascii_value(cli))) {
            AsciiChoice::Enable => {
                &&& done is Ok
                &&& final(config).ascii_mode
                &&& final(state_handler).state == ConfigState::ConfigChange
            },
            AsciiChoice::Disable => {
                &&& done is Ok
                &&& !final(config).ascii_mode
                &&& final(state_handler).state == ConfigState::ConfigChange
            },
            AsciiChoice::Keep => {
                &&& done is Ok
                &&& final(config).ascii_mode == old(config).ascii_mode
                &&& final(state_handler).state == old(state_handler).state
            },
            AsciiChoice::Unknown => {
                &&& done == Err::<(), OptionError>(OptionError::UnknownAsciiMode)
                &&& final(config).ascii_mode == old(config).ascii_mode
                &&& final(state_handler).state == old(state_handler).state
            },
        },
{
    let value: &str = match &cli.ascii_mode {
        Some(value) => value.as_str(),
        None => "",
    };
    proof {
        reveal_strlit("");
        assert(value@ =~= ascii_value(cli));
    }
    let lowered = to_lowercase(value);
    match ascii_choice(value, lowered.as_str()) {
        AsciiChoice::Enable => {
            config.ascii_enabled(true);
            state_handler.config_change();
            Ok(())
        },
        AsciiChoice::Disable => {
            config.ascii_enabled(false);
            state_handler.config_change();
            Ok(())
        },
        AsciiChoice::Unknown => Err(OptionError::UnknownAsciiMode),
        AsciiChoice::Keep => Ok(()),
    }
}

/// Sets the search depth where one was given. A depth below the least or
/// above the greatest is refused and changes nothing.
pub fn search_depth(
    cli: &Cli,
    config: &mut Config,
    state_handler: &mut ConfigStateHandler,
) -> (done: Result<(), OptionError>)
    ensures
        final(config).version == old(config).version,
        final(config).ascii_mode == old(config).ascii_mode,
        final(config).project_paths == old(config).project_paths,
        match cli.search_depth {
            Some(depth) => if MIN_SEARCH_DEPTH <= depth <= MAX_SEARCH_DEPTH {
                &&& done is Ok
                &&& final(config).search_depth == depth
                &&& final(state_handler).state == ConfigState::ConfigChange
            } else {
                &&& done == Err::<(), OptionError>(OptionError::DepthOutOfBounds)
                &&& final(config).search_depth == old(config).search_depth
                &&& final(state_handler).state == old(state_handler).state
            },
            None => {
                &&& done is Ok
                &&& final(config).search_depth == old(config).search_depth
                &&& final(state_handler).state == old(state_handler).state
            },
        },
{
    match cli.search_depth {
        Some(v) => {
            if (v < MIN_SEARCH_DEPTH) || (v > MAX_SEARCH_DEPTH) {
                return Err(OptionError::DepthOutOfBounds);
            }
            config.search_depth(v);
            state_handler.config_change();
            Ok(())
        },
        None => Ok(()),
    }
}

/// Whether the lower-case form of what the client printed names the client.
pub fn names_client(lowered: &str) -> (named: bool)
    ensures
        named == has_infix(lowered@, "git"@),
{
    let hay = chars_of(lowered);
    let needle = chars_of("git");
    contains(&hay, &needle)
}

/// Whether what the client printed as its version names the client, in any
/// case.
pub fn check_git_client(version_output: &str) -> (present: bool)
    ensures
        present == has_infix(lowercase_of(version_output@), "git"@),
{
    let lowered = to_lowercase(version_output);
    names_client(lowered.as_str())
}

/// Holds the version that wrote the configuration against the version that
/// runs.
pub fn check_config_version(config: &Config, current_version: &str) -> (done: Result<(), OptionError>)
    ensures
        done == if config.version@ == current_version@ {
            Ok::<(), OptionError>(())
        } else if config.version@ == "UNKNOWN"@ {
            Err::<(), OptionError>(OptionError::UnknownVersion)
        } else {
            Err::<(), OptionError>(OptionError::OutdatedConfig)
        },
{
    let current = String::from_str(current_version);
    let keyword = String::from_str("UNKNOWN");
    if config.version == current {
        Ok(())
    } else if config.version == keyword {
        Err(OptionError::UnknownVersion)
    } else {
        Err(OptionError::OutdatedConfig)
    }
}

} // verus!
