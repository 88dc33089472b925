//! Where the shell keeps its data.
//!
//! Everything lives in one data directory. In portable mode that is a folder next to
//! the executable; where there is none that can be written, a folder in the system's
//! directory for application data takes its place.

use vstd::prelude::*;

use crate::text;

verus! {

/// The folder next to the executable that holds the data in portable mode.
pub const PORTABLE_FOLDER: &'static str = "data";

/// The folder in the system's directory for application data that holds the data in
/// installed mode.
pub const INSTALLED_FOLDER: &'static str = "JogiCode";

/// The folder in the system's temporary directory that holds the data when there is
/// no other place.
pub const FALLBACK_FOLDER: &'static str = "jogicode";

/// A file or a folder in the data directory.
#[derive(Debug, Clone, Copy, PartialEq, Eq, Structural)]
pub enum DataPath {
    /// Settings and workspace state of the editor.
    UserData,
    /// The settings of the user, inside [`DataPath::UserData`].
    User,
    Settings,
    Keybindings,
    /// Installed extensions.
    Extensions,
    /// The profile of the web view.
    Webview,
    /// What code-server takes for the home directory.
    Home,
    /// The Kilo Code configuration, inside [`DataPath::Home`].
    KiloConfig,
    /// What code-server takes for the application data of the user.
    AppData,
    /// Temporary files.
    Tmp,
    /// The log of the shell and of code-server.
    Log,
}

/// The texts of some names.
pub open spec fn names(parts: Seq<&'static str>) -> Seq<Seq<char>> {
    parts.map_values(|part: &'static str| part@)
}

impl DataPath {
    /// The names on the way from the data directory to this path.
    pub open spec fn names(self) -> Seq<Seq<char>> {
        match self {
            DataPath::UserData => seq!["userdata"@],
            DataPath::User => seq!["userdata"@, "User"@],
            DataPath::Settings => seq!["userdata"@, "User"@, "settings.json"@],
            DataPath::Keybindings => seq!["userdata"@, "User"@, "keybindings.json"@],
            DataPath::Extensions => seq!["extensions"@],
            DataPath::Webview => seq!["webview"@],
            DataPath::Home => seq!["home"@],
            DataPath::KiloConfig => seq!["home"@, ".config"@, "kilo"@],
            DataPath::AppData => seq!["appdata"@],
            DataPath::Tmp => seq!["tmp"@],
            DataPath::Log => seq!["jogicode.log"@],
        }
    }

    /// The names on the way from the data directory to this path.
    pub fn parts(self) -> (parts: Vec<&'static str>)
        ensures
            names(parts@) == self.names(),
    {
        let parts: Vec<&'static str> = match self {
            DataPath::UserData => vec!["userdata"],
            DataPath::User => vec!["userdata", "User"],
            DataPath::Settings => vec!["userdata", "User", "settings.json"],
            DataPath::Keybindings => vec!["userdata", "User", "keybindings.json"],
            DataPath::Extensions => vec!["extensions"],
            DataPath::Webview => vec!["webview"],
            DataPath::Home => vec!["home"],
            DataPath::KiloConfig => vec!["home", ".config", "kilo"],
            DataPath::AppData => vec!["appdata"],
            DataPath::Tmp => vec!["tmp"],
            DataPath::Log => vec!["jogicode.log"],
        };
        proof {
            assert(names(parts@) =~= self.names());
        }
        parts
    }
}

/// The texts of some names are those of each, in order.
pub proof fn law_names_are_those_of_each(parts: Seq<&'static str>, i: int)
    requires
        0 <= i < parts.len(),
    ensures
        names(parts).len() == parts.len(),
        names(parts)[i] == parts[i]@,
{
}

/// Two paths of the data directory never lead to one place.
pub proof fn law_data_paths_differ(path: DataPath, other: DataPath)
    requires
        path != other,
    ensures
        path.names() != other.names(),
{
    reveal_strlit("userdata");
    reveal_strlit("User");
    reveal_strlit("settings.json");
    reveal_strlit("keybindings.json");
    reveal_strlit("extensions");
    reveal_strlit("webview");
    reveal_strlit("home");
    reveal_strlit(".config");
    reveal_strlit("kilo");
    reveal_strlit("appdata");
    reveal_strlit("tmp");
    reveal_strlit("jogicode.log");
    assert("webview"@[0] == 'w' && "appdata"@[0] == 'a');
    if path.names() == other.names() {
        assert(path.names()[0] == other.names()[0]);
        assert(path.names().len() == other.names().len());
        assert(path.names().last() == other.names().last());
        assert(path.names().last().len() == other.names().last().len());
        assert(path.names().last()[0] == other.names().last()[0]);
    }
}

/// Whether a name stands for an entry of the directory in which it is used: it is
/// not empty, leads neither here nor up, and holds no separator and no drive.
pub open spec fn is_entry_name(name: Seq<char>) -> bool {
    &&& name.len() > 0
    &&& name != seq!['.']
    &&& name != seq!['.', '.']
    &&& forall|i: int| 0 <= i < name.len() ==> name[i] != '/' && name[i] != '\\' && name[i] != ':'
}

/// No path of the data directory leads out of it.
pub proof fn law_data_stays_inside(path: DataPath, i: int)
    requires
        0 <= i < path.names().len(),
    ensures
        is_entry_name(path.names()[i]),
{
    reveal_strlit("userdata");
    reveal_strlit("User");
    reveal_strlit("settings.json");
    reveal_strlit("keybindings.json");
    reveal_strlit("extensions");
    reveal_strlit("webview");
    reveal_strlit("home");
    reveal_strlit(".config");
    reveal_strlit("kilo");
    reveal_strlit("appdata");
    reveal_strlit("tmp");
    reveal_strlit("jogicode.log");
    assert(seq!['.'].len() == 1 && seq!['.', '.'].len() == 2);
}

/// The settings of the user lie inside the user data, and the Kilo Code
/// configuration inside the home directory that code-server sees.
pub proof fn law_nested_paths()
    ensures
        DataPath::User.names() == DataPath::UserData.names().push("User"@),
        DataPath::Settings.names() == DataPath::User.names().push("settings.json"@),
        DataPath::Keybindings.names() == DataPath::User.names().push("keybindings.json"@),
        DataPath::KiloConfig.names() == DataPath::Home.names().push(".config"@).push("kilo"@),
{
}

/// A directory in which the data directory may lie.
#[derive(Debug, Clone, Copy, PartialEq, Eq, Structural)]
pub enum Base {
    /// The folder of the executable.
    Executable,
    /// The system's directory for the application data of the user.
    AppData,
    /// The system's temporary directory.
    Temporary,
}

/// The choice of the data directory: what is to be found out next, or the choice.
#[derive(Debug, Clone, Copy, PartialEq, Eq, Structural)]
pub enum DataDirChoice {
    /// Tell whether the portable folder is there.
    CheckPortable,
    /// Create the portable folder.
    CreatePortable,
    /// Tell whether the portable folder can be written.
    CheckWritable,
    /// Ask the system for its directory for application data.
    AskSystem,
    /// The portable folder is the data directory.
    Portable,
    /// The folder in the system's directory is the data directory.
    Installed,
    /// The fallback folder is the data directory.
    Fallback,
}

impl DataDirChoice {
    /// What an answer leads to.
    pub open spec fn after(self, yes: bool) -> DataDirChoice {
        match self {
            DataDirChoice::CheckPortable => if yes {
                DataDirChoice::CheckWritable
            } else {
                DataDirChoice::CreatePortable
            },
            DataDirChoice::CreatePortable => if yes {
                DataDirChoice::CheckWritable
            } else {
                DataDirChoice::AskSystem
            },
            DataDirChoice::CheckWritable => if yes {
                DataDirChoice::Portable
            } else {
                DataDirChoice::AskSystem
            },
            DataDirChoice::AskSystem => if yes {
                DataDirChoice::Installed
            } else {
                DataDirChoice::Fallback
            },
            _ => self,
        }
    }

    /// Where the data directory lies and what its name is, once it is chosen.
    pub open spec fn location(self) -> Option<(Base, Seq<char>)> {
        match self {
            DataDirChoice::Portable => Some((Base::Executable, "data"@)),
            DataDirChoice::Installed => Some((Base::AppData, "JogiCode"@)),
            DataDirChoice::Fallback => Some((Base::Temporary, "jogicode"@)),
            _ => None,
        }
    }

    /// Where the data directory lies and what its name is, once it is chosen.
    pub fn place(self) -> (place: Option<(Base, &'static str)>)
        ensures
            match (place, self.location()) {
                (Some((base, folder)), Some(location)) => base == location.0 && folder@ == location.1,
                (None, None) => true,
                _ => false,
            },
    {
        match self {
            DataDirChoice::Portable => Some((Base::Executable, PORTABLE_FOLDER)),
            DataDirChoice::Installed => Some((Base::AppData, INSTALLED_FOLDER)),
            DataDirChoice::Fallback => Some((Base::Temporary, FALLBACK_FOLDER)),
            _ => None,
        }
    }

    /// Begins the choice. The portable folder comes into question only if the folder
    /// of the executable is known.
    pub fn begin(folder_known: bool) -> (choice: DataDirChoice)
        ensures
            choice == if folder_known {
                DataDirChoice::CheckPortable
            } else {
                DataDirChoice::AskSystem
            },
    {
        if folder_known {
            DataDirChoice::CheckPortable
        } else {
            DataDirChoice::AskSystem
        }
    }

    /// Takes the answer to what was to be found out.
    pub fn next(self, yes: bool) -> (choice: DataDirChoice)
        ensures
            choice == self.after(yes),
    {
        match self {
            DataDirChoice::CheckPortable => if yes {
                DataDirChoice::CheckWritable
            } else {
                DataDirChoice::CreatePortable
            },
            DataDirChoice::CreatePortable => if yes {
                DataDirChoice::CheckWritable
            } else {
                DataDirChoice::AskSystem
            },
            DataDirChoice::CheckWritable => if yes {
                DataDirChoice::Portable
            } else {
                DataDirChoice::AskSystem
            },
            DataDirChoice::AskSystem => if yes {
                DataDirChoice::Installed
            } else {
                DataDirChoice::Fallback
            },
            _ => self,
        }
    }
}

/// What is found out about the places that come into question.
pub struct Surroundings {
    /// The portable folder is there.
    pub is_there: bool,
    /// The portable folder can be created.
    pub creatable: bool,
    /// The portable folder, once it is there, can be written.
    pub writable: bool,
    /// The system has a directory for application data.
    pub system: bool,
}

/// The answer to what is to be found out.
pub open spec fn answer_in(surroundings: Surroundings, choice: DataDirChoice) -> bool {
    match choice {
        DataDirChoice::CheckPortable => surroundings.is_there,
        DataDirChoice::CreatePortable => surroundings.creatable,
        DataDirChoice::CheckWritable => surroundings.writable,
        _ => surroundings.system,
    }
}

/// The choice after some answers.
pub open spec fn choice_after(surroundings: Surroundings, choice: DataDirChoice, answers: nat) -> DataDirChoice
    decreases answers,
{
    if answers == 0 {
        choice
    } else {
        choice_after(
            surroundings,
            choice.after(answer_in(surroundings, choice)),
            (answers - 1) as nat,
        )
    }
}

/// The data directory is the folder `data` next to the executable exactly where that is
/// there or can be created and can be written; otherwise `JogiCode` in the system's
/// directory for application data, and the fallback only where the system has none. Where
/// the folder of the executable is unknown, the system decides alone. More answers change
/// nothing.
pub proof fn law_writable_portable_folder_comes_first(surroundings: Surroundings, answers: nat)
    requires
        answers >= 4,
    ensures
        choice_after(surroundings, DataDirChoice::CheckPortable, answers) == if (surroundings.is_there
            || surroundings.creatable) && surroundings.writable {
            DataDirChoice::Portable
        } else if surroundings.system {
            DataDirChoice::Installed
        } else {
            DataDirChoice::Fallback
        },
        choice_after(surroundings, DataDirChoice::AskSystem, answers) == if surroundings.system {
            DataDirChoice::Installed
        } else {
            DataDirChoice::Fallback
        },
        choice_after(surroundings, DataDirChoice::CheckPortable, answers).location() == if (surroundings.is_there
            || surroundings.creatable) && surroundings.writable {
            Some((Base::Executable, "data"@))
        } else if surroundings.system {
            Some((Base::AppData, "JogiCode"@))
        } else {
            Some((Base::Temporary, "jogicode"@))
        },
        choice_after(surroundings, DataDirChoice::AskSystem, answers).location() == if surroundings.system {
            Some((Base::AppData, "JogiCode"@))
        } else {
            Some((Base::Temporary, "jogicode"@))
        },
{
    let more = (answers - 4) as nat;
    lemma_choice_is_final(surroundings, DataDirChoice::Portable, more);
    lemma_choice_is_final(surroundings, DataDirChoice::Installed, more);
    lemma_choice_is_final(surroundings, DataDirChoice::Fallback, more);
    reveal_with_fuel(choice_after, 5);
}

proof fn lemma_choice_is_final(surroundings: Surroundings, choice: DataDirChoice, answers: nat)
    requires
        choice is Portable || choice is Installed || choice is Fallback,
    ensures
        choice_after(surroundings, choice, answers) == choice,
    decreases answers,
{
    if answers > 0 {
        lemma_choice_is_final(surroundings, choice, (answers - 1) as nat);
    }
}

/// What is said where the system has no directory for application data.
pub open spec fn no_system_dir_text(reason: Seq<char>) -> Seq<char> {
    "failed to resolve app_data_dir: "@ + reason
}

/// What is said ends with the reason, whole, whatever that is, and begins alike for every
/// reason.
pub proof fn law_missing_system_dir_tells_its_reason(reason: Seq<char>)
    ensures
        no_system_dir_text(reason).take(32) == "failed to resolve app_data_dir: "@,
        no_system_dir_text(reason).skip(32) == reason,
{
    reveal_strlit("failed to resolve app_data_dir: ");
    assert(no_system_dir_text(reason).take(32) =~= "failed to resolve app_data_dir: "@);
    assert(no_system_dir_text(reason).skip(32) =~= reason);
}

/// Says why the system has no directory for application data.
pub fn no_system_dir(reason: &str) -> (message: String)
    ensures
        message@ == no_system_dir_text(reason@),
        message@ == "failed to resolve app_data_dir: "@ + reason@,
{
    text::joined("failed to resolve app_data_dir: ", reason)
}

} // verus!
