//! Where the configuration lives: the home directory of the engine on each
//! platform, the configuration file in it, and what has to be created before
//! the file can be read.

use crate::text::text_outcome;
use vstd::prelude::*;
use vstd::string::*;

verus! {

/// What a configuration file holds on Unix when it is first created.
pub const UNIX_DEFAULT_CONFIG: &'static str = "{\n    \"help\": \"Put the directory to your original ja2 installation into the line below\",\n    \"data_dir\": \"/some/place/where/the/data/is\"\n}";

/// What a configuration file holds on Windows when it is first created.
pub const WINDOWS_DEFAULT_CONFIG: &'static str = "{\n    \"help\": \"Put the directory to your original ja2 installation into the line below. Make sure to use double backslashes.\",\n    \"data_dir\": \"C:\\\\Program Files\\\\Jagged Alliance 2\"\n}";

/// The kind of system that the engine runs on, as far as paths differ.
#[derive(Debug, Clone, Copy, PartialEq, Eq, Structural)]
pub enum Platform {
    Unix,
    Windows,
}

impl Platform {
    /// The character that a path is joined with.
    pub open spec fn separator(self) -> char {
        match self {
            Platform::Unix => '/',
            Platform::Windows => '\\',
        }
    }

    /// Whether `c` ends the name of a directory in a path.
    pub open spec fn is_separator(self, c: char) -> bool {
        match self {
            Platform::Unix => c == '/',
            Platform::Windows => c == '\\' || c == '/',
        }
    }

    /// The name of the engine's home directory below the user's directory.
    pub open spec fn home_name(self) -> Seq<char> {
        match self {
            Platform::Unix => ".ja2"@,
            Platform::Windows => "JA2"@,
        }
    }

    /// What a configuration file holds when it is first created.
    pub open spec fn default_config(self) -> Seq<char> {
        match self {
            Platform::Unix => UNIX_DEFAULT_CONFIG@,
            Platform::Windows => WINDOWS_DEFAULT_CONFIG@,
        }
    }

    fn separator_text(self) -> (text: &'static str)
        ensures
            text@ == seq![self.separator()],
    {
        proof {
            reveal_strlit("/");
            reveal_strlit("\\");
        }
        let text = match self {
            Platform::Unix => "/",
            Platform::Windows => "\\",
        };
        assert(text@ =~= seq![self.separator()]);
        text
    }

    fn home_name_text(self) -> (text: &'static str)
        ensures
            text@ == self.home_name(),
    {
        match self {
            Platform::Unix => ".ja2",
            Platform::Windows => "JA2",
        }
    }

    fn default_config_text(self) -> (text: &'static str)
        ensures
            text@ == self.default_config(),
    {
        match self {
            Platform::Unix => UNIX_DEFAULT_CONFIG,
            Platform::Windows => WINDOWS_DEFAULT_CONFIG,
        }
    }
}

/// The name of the configuration file.
pub open spec fn config_file_name() -> Seq<char> {
    "ja2.json"@
}

/// What `find_stracciatella_home` answers where the user has no directory.
pub open spec fn home_not_found_message() -> Seq<char> {
    "Could not find home directory"@
}

/// The path of `name` inside the directory `base`: the two joined by the
/// platform's separator, which is left out where `base` is empty or ends in
/// a separator already.
pub open spec fn path_in(platform: Platform, base: Seq<char>, name: Seq<char>) -> Seq<char> {
    if base.len() == 0 || platform.is_separator(base.last()) {
        base + name
    } else {
        base + seq![platform.separator()] + name
    }
}

/// Joins a directory and a name inside it.
pub fn join_path(platform: Platform, base: &str, name: &str) -> (path: String)
    ensures
        path@ == path_in(platform, base@, name@),
{
    let length = base.unicode_len();
    let mut path = base.to_owned();
    if length > 0 {
        let last = base.get_char(length - 1);
        let ends_in_separator = match platform {
            Platform::Unix => last == '/',
            Platform::Windows => last == '\\' || last == '/',
        };
        if !ends_in_separator {
            path.append(platform.separator_text());
        }
    }
    path.append(name);
    path
}

pub open spec fn home_in(platform: Platform, user_directory: Option<Seq<char>>) -> Result<
    Seq<char>,
    Seq<char>,
> {
    match user_directory {
        Some(base) => Ok(path_in(platform, base, platform.home_name())),
        None => Err(home_not_found_message()),
    }
}

pub open spec fn optional_text(text: Option<&str>) -> Option<Seq<char>> {
    match text {
        Some(t) => Some(t@),
        None => None,
    }
}

/// The engine's home directory: `.ja2` below the user's home directory on
/// Unix, `JA2` below the user's documents on Windows. `user_directory` is that
/// directory as the platform gave it, or nothing where it gave none, which is
/// an error. The directory is not created.
pub fn find_stracciatella_home(platform: Platform, user_directory: Option<&str>) -> (home: Result<
    String,
    String,
>)
    ensures
        text_outcome(home) == home_in(platform, optional_text(user_directory)),
{
    match user_directory {
        Some(base) => Ok(join_path(platform, base, platform.home_name_text())),
        None => Err("Could not find home directory".to_owned()),
    }
}

/// The path of the configuration file in the engine's home directory.
pub fn build_json_config_location(platform: Platform, stracciatella_home: &str) -> (path: String)
    ensures
        path@ == path_in(platform, stracciatella_home@, config_file_name()),
{
    join_path(platform, stracciatella_home, "ja2.json")
}

/// One thing to create before the configuration can be read.
#[derive(Debug, PartialEq, Eq)]
pub enum SetupStep {
    /// Create the directory `path` and the missing directories above it.
    CreateDirectory { path: String },
    /// Create the file `path` and write `contents` into it.
    CreateFile { path: String, contents: String },
}

pub ghost enum SetupStepView {
    CreateDirectory { path: Seq<char> },
    CreateFile { path: Seq<char>, contents: Seq<char> },
}

impl DeepView for SetupStep {
    type V = SetupStepView;

    open spec fn deep_view(&self) -> SetupStepView {
        match self {
            SetupStep::CreateDirectory { path } => SetupStepView::CreateDirectory { path: path@ },
            SetupStep::CreateFile { path, contents } => SetupStepView::CreateFile {
                path: path@,
                contents: contents@,
            },
        }
    }
}

/// What has to be created so that the home directory and a configuration
/// file in it exist: the directory where it is missing, then the file with
/// the platform's first contents where there is no file.
pub open spec fn setup_steps(
    platform: Platform,
    stracciatella_home: Seq<char>,
    home_exists: bool,
    config_is_file: bool,
) -> Seq<SetupStepView> {
    let directory = if home_exists {
        Seq::empty()
    } else {
        seq![SetupStepView::CreateDirectory { path: stracciatella_home }]
    };
    let file = if config_is_file {
        Seq::empty()
    } else {
        seq![
            SetupStepView::CreateFile {
                path: path_in(platform, stracciatella_home, config_file_name()),
                contents: platform.default_config(),
            },
        ]
    };
    directory + file
}

/// Decides what to create so that the configuration file exists, from what
/// was found on disk: whether the home directory exists, and whether the
/// configuration file in it is a file. The steps are to be done in order.
/// A file that exists is never written.
pub fn ensure_json_config_existence(
    platform: Platform,
    stracciatella_home: &str,
    home_exists: bool,
    config_is_file: bool,
) -> (steps: Vec<SetupStep>)
    ensures
        steps.deep_view() == setup_steps(platform, stracciatella_home@, home_exists, config_is_file),
        config_is_file ==> forall|i: int|
            0 <= i < steps.len() ==> (#[trigger] steps[i]) is CreateDirectory,
{
    let mut steps: Vec<SetupStep> = Vec::new();
    if !home_exists {
        steps.push(SetupStep::CreateDirectory { path: stracciatella_home.to_owned() });
    }
    if !config_is_file {
        steps.push(
            SetupStep::CreateFile {
                path: build_json_config_location(platform, stracciatella_home),
                contents: platform.default_config_text().to_owned(),
            },
        );
    }
    assert(steps.deep_view() =~= setup_steps(
        platform,
        stracciatella_home@,
        home_exists,
        config_is_file,
    ));
    steps
}

/// Where a configuration file is there already, no step writes a file,
/// whatever else is missing: its bytes stay as they are.
pub proof fn lemma_existing_config_is_kept(
    platform: Platform,
    stracciatella_home: Seq<char>,
    home_exists: bool,
)
    ensures
        forall|i: int|
            0 <= i < setup_steps(platform, stracciatella_home, home_exists, true).len() ==> (
            #[trigger] setup_steps(platform, stracciatella_home, home_exists, true)[i])
                is CreateDirectory,
{
}

} // verus!
