//! How code-server is run.

use vstd::prelude::*;

use crate::endpoint;
use crate::layout::DataPath;
use crate::text;

verus! {

/// Whether code-server gets its application data from the data directory.
///
/// Some native modules look there at startup to recognise the machine. If an extension
/// misbehaves for that reason this can be switched off; everything else stays
/// redirected.
pub const REDIRECT_APPDATA: bool = true;

/// An argument of Node.js.
#[derive(Debug)]
pub enum ServerArg<P> {
    /// The entry script of code-server.
    Entry(P),
    Text(String),
    /// A folder of the data directory.
    Dir(DataPath),
}

/// What a [`ServerArg`] says.
pub enum Argument<P> {
    Entry(P),
    Text(Seq<char>),
    Dir(DataPath),
}

impl<P> View for ServerArg<P> {
    type V = Argument<P>;

    open spec fn view(&self) -> Argument<P> {
        match *self {
            ServerArg::Entry(path) => Argument::Entry(path),
            ServerArg::Text(text) => Argument::Text(text@),
            ServerArg::Dir(path) => Argument::Dir(path),
        }
    }
}

/// The value of an environment variable.
#[derive(Debug, Clone, Copy)]
pub enum EnvValue {
    Text(&'static str),
    /// A folder of the data directory.
    Dir(DataPath),
}

/// What an [`EnvValue`] says.
pub enum Setting {
    Text(Seq<char>),
    Dir(DataPath),
}

impl View for EnvValue {
    type V = Setting;

    open spec fn view(&self) -> Setting {
        match *self {
            EnvValue::Text(text) => Setting::Text(text@),
            EnvValue::Dir(path) => Setting::Dir(path),
        }
    }
}

/// The arguments of Node.js for an entry script and a port.
pub open spec fn arguments<P>(entry: P, port: u16) -> Seq<Argument<P>> {
    seq![
        Argument::Entry(entry),
        Argument::Text("--bind-addr"@),
        Argument::Text(endpoint::address_text(port)),
        Argument::Text("--auth"@),
        Argument::Text("none"@),
        Argument::Text("--disable-telemetry"@),
        Argument::Text("--disable-update-check"@),
        Argument::Text("--user-data-dir"@),
        Argument::Dir(DataPath::UserData),
        Argument::Text("--extensions-dir"@),
        Argument::Dir(DataPath::Extensions),
    ]
}

/// The environment variables that code-server gets, each with its value.
pub open spec fn environment(redirect_appdata: bool) -> Seq<(Seq<char>, Setting)> {
    seq![
        ("NODE_OPTIONS"@, Setting::Text("--max-old-space-size=384"@)),
        ("UV_THREADPOOL_SIZE"@, Setting::Text("8"@)),
        ("ELECTRON_DISABLE_SECURITY_WARNINGS"@, Setting::Text("true"@)),
        ("USERPROFILE"@, Setting::Dir(DataPath::Home)),
        ("HOME"@, Setting::Dir(DataPath::Home)),
    ] + (if redirect_appdata {
        seq![("APPDATA"@, Setting::Dir(DataPath::AppData))]
    } else {
        Seq::empty()
    }) + seq![
        ("TEMP"@, Setting::Dir(DataPath::Tmp)),
        ("TMP"@, Setting::Dir(DataPath::Tmp)),
        ("TMPDIR"@, Setting::Dir(DataPath::Tmp)),
    ]
}

/// The folders that are created before code-server starts.
pub open spec fn folders(redirect_appdata: bool) -> Seq<DataPath> {
    seq![DataPath::Home] + (if redirect_appdata {
        seq![DataPath::AppData]
    } else {
        Seq::empty()
    }) + seq![DataPath::Tmp]
}

/// code-server listens at the address that is asked for a sign of life and that the
/// window goes to.
pub proof fn law_one_address<P>(entry: P, port: u16)
    ensures
        arguments(entry, port)[1] == Argument::<P>::Text("--bind-addr"@),
        arguments(entry, port)[2] == Argument::<P>::Text(endpoint::address_text(port)),
        endpoint::health_request_text(port) == "GET / HTTP/1.1\r\nHost: "@ + endpoint::address_text(port)
            + "\r\nConnection: close\r\n\r\n"@,
        endpoint::navigation_text(port) == "window.location.href = 'http://"@ + endpoint::address_text(port)
            + "';"@,
{
}

/// The option after which an argument stands, if that is a text.
pub open spec fn follows<P>(args: Seq<Argument<P>>, option: Seq<char>, value: Argument<P>) -> bool {
    exists|i: int|
        0 < i < args.len() && args[i - 1] == Argument::<P>::Text(option) && #[trigger] args[i] == value
}

/// Whatever the entry script and the port are, Node.js runs that script, and code-server is
/// told to bind the loopback address of that port, to ask for no password, and to keep user
/// data and extensions in the folders of those names: each option is given, and what stands
/// after it is its value and nothing else.
pub proof fn law_options_have_their_values<P>(entry: P, port: u16, i: int)
    requires
        0 <= i < arguments(entry, port).len(),
    ensures
        ({
            let args = arguments(entry, port);
            &&& args.len() == 11
            &&& args[0] == Argument::Entry(entry)
            &&& i > 0 ==> args[i] !is Entry
            &&& follows(args, "--bind-addr"@, Argument::Text("127.0.0.1:"@ + text::decimal(port as nat)))
            &&& follows(args, "--auth"@, Argument::Text("none"@))
            &&& follows(args, "--user-data-dir"@, Argument::Dir(DataPath::UserData))
            &&& follows(args, "--extensions-dir"@, Argument::Dir(DataPath::Extensions))
            &&& args.contains(Argument::Text("--disable-telemetry"@))
            &&& args.contains(Argument::Text("--disable-update-check"@))
            &&& args[i] == Argument::<P>::Text("--user-data-dir"@) ==> i + 1 < 11 && args[i + 1]
                == Argument::<P>::Dir(DataPath::UserData)
            &&& args[i] == Argument::<P>::Text("--extensions-dir"@) ==> i + 1 < 11 && args[i + 1]
                == Argument::<P>::Dir(DataPath::Extensions)
            &&& args[i] == Argument::<P>::Text("--bind-addr"@) ==> i + 1 < 11 && args[i + 1]
                == Argument::<P>::Text("127.0.0.1:"@ + text::decimal(port as nat))
            &&& args[i] == Argument::<P>::Text("--auth"@) ==> i + 1 < 11 && args[i + 1] == Argument::<P>::Text(
                "none"@,
            )
            &&& args[i] == Argument::<P>::Dir(DataPath::UserData) ==> i > 0 && args[i - 1] == Argument::<P>::Text(
                "--user-data-dir"@,
            )
            &&& args[i] == Argument::<P>::Dir(DataPath::Extensions) ==> i > 0 && args[i - 1]
                == Argument::<P>::Text("--extensions-dir"@)
            &&& args[i] matches Argument::Dir(path) ==> path == DataPath::UserData || path
                == DataPath::Extensions
        }),
{
    let args = arguments(entry, port);
    assert(args[1] == Argument::<P>::Text("--bind-addr"@));
    assert(args[2] == Argument::<P>::Text("127.0.0.1:"@ + text::decimal(port as nat)));
    assert(args[3] == Argument::<P>::Text("--auth"@) && args[4] == Argument::<P>::Text("none"@));
    assert(args[5] == Argument::<P>::Text("--disable-telemetry"@));
    assert(args[6] == Argument::<P>::Text("--disable-update-check"@));
    assert(args[7] == Argument::<P>::Text("--user-data-dir"@));
    assert(args[8] == Argument::<P>::Dir(DataPath::UserData));
    assert(args[9] == Argument::<P>::Text("--extensions-dir"@));
    assert(args[10] == Argument::<P>::Dir(DataPath::Extensions));
    reveal_strlit("--bind-addr");
    reveal_strlit("127.0.0.1:");
    reveal_strlit("--auth");
    reveal_strlit("none");
    reveal_strlit("--disable-telemetry");
    reveal_strlit("--disable-update-check");
    reveal_strlit("--user-data-dir");
    reveal_strlit("--extensions-dir");
    let address = "127.0.0.1:"@ + text::decimal(port as nat);
    assert(address[0] == '1');
    assert("--bind-addr"@[2] == 'b' && "--auth"@[2] == 'a' && "--disable-telemetry"@[2] == 'd');
    assert("--disable-update-check"@[2] == 'd' && "--user-data-dir"@[2] == 'u' && "--extensions-dir"@[2] == 'e');
    assert("none"@[0] == 'n');
}

/// The arguments of two starts with one entry script differ at most in the address, and
/// those with one port at most in the entry script.
pub proof fn law_only_address_and_script_vary<P>(entry: P, other: P, port: u16, another: u16, i: int)
    requires
        0 <= i < 11,
    ensures
        arguments(entry, port).len() == arguments(other, another).len(),
        i != 2 ==> arguments(entry, port)[i] == arguments(entry, another)[i],
        i != 0 ==> arguments(entry, port)[i] == arguments(other, port)[i],
{
}

/// What stands in a list of arguments or variables is what each of them says, in order.
pub proof fn law_lists_say_what_they_hold<P>(
    args: Seq<ServerArg<P>>,
    env: Seq<(&'static str, EnvValue)>,
    i: int,
)
    ensures
        argument_texts(args).len() == args.len(),
        variables(env).len() == env.len(),
        0 <= i < args.len() ==> match args[i] {
            ServerArg::Entry(path) => argument_texts(args)[i] == Argument::Entry(path),
            ServerArg::Text(text) => argument_texts(args)[i] == Argument::<P>::Text(text@),
            ServerArg::Dir(path) => argument_texts(args)[i] == Argument::<P>::Dir(path),
        },
        0 <= i < env.len() ==> variables(env)[i].0 == env[i].0@ && match env[i].1 {
            EnvValue::Text(text) => variables(env)[i].1 == Setting::Text(text@),
            EnvValue::Dir(path) => variables(env)[i].1 == Setting::Dir(path),
        },
{
}

/// A working directory says the folder or the text that it holds.
pub proof fn law_work_dirs_say_what_they_hold<P>(folder: P, text: &'static str)
    ensures
        WorkDir::Folder(folder)@ == Workplace::Folder(folder),
        WorkDir::<P>::Text(text)@ == Workplace::<P>::Text(text@),
{
}

/// The environment caps the heap of Node.js and leads the home directory, the temporary
/// directory and, if asked to, the application data to folders of the data directory. No
/// variable is set twice, and no other is set.
pub proof fn law_environment_is_redirected(redirect_appdata: bool, i: int, j: int)
    requires
        0 <= i < environment(redirect_appdata).len(),
        0 <= j < environment(redirect_appdata).len(),
    ensures
        ({
            let env = environment(redirect_appdata);
            &&& env.len() == if redirect_appdata { 9nat } else { 8nat }
            &&& i != j ==> env[i].0 != env[j].0
            &&& env.contains(("NODE_OPTIONS"@, Setting::Text("--max-old-space-size=384"@)))
            &&& env.contains(("UV_THREADPOOL_SIZE"@, Setting::Text("8"@)))
            &&& env.contains(("ELECTRON_DISABLE_SECURITY_WARNINGS"@, Setting::Text("true"@)))
            &&& env.contains(("USERPROFILE"@, Setting::Dir(DataPath::Home)))
            &&& env.contains(("HOME"@, Setting::Dir(DataPath::Home)))
            &&& env.contains(("TEMP"@, Setting::Dir(DataPath::Tmp)))
            &&& env.contains(("TMP"@, Setting::Dir(DataPath::Tmp)))
            &&& env.contains(("TMPDIR"@, Setting::Dir(DataPath::Tmp)))
            &&& redirect_appdata ==> env.contains(("APPDATA"@, Setting::Dir(DataPath::AppData)))
            &&& !redirect_appdata ==> env[i].0 != "APPDATA"@
        }),
{
    let env = environment(redirect_appdata);
    let n: int = if redirect_appdata { 1 } else { 0 };
    assert(env[0] == ("NODE_OPTIONS"@, Setting::Text("--max-old-space-size=384"@)));
    assert(env[1] == ("UV_THREADPOOL_SIZE"@, Setting::Text("8"@)));
    assert(env[2] == ("ELECTRON_DISABLE_SECURITY_WARNINGS"@, Setting::Text("true"@)));
    assert(env[3] == ("USERPROFILE"@, Setting::Dir(DataPath::Home)));
    assert(env[4] == ("HOME"@, Setting::Dir(DataPath::Home)));
    if redirect_appdata {
        assert(env[5] == ("APPDATA"@, Setting::Dir(DataPath::AppData)));
    }
    assert(env[5 + n] == ("TEMP"@, Setting::Dir(DataPath::Tmp)));
    assert(env[6 + n] == ("TMP"@, Setting::Dir(DataPath::Tmp)));
    assert(env[7 + n] == ("TMPDIR"@, Setting::Dir(DataPath::Tmp)));
    reveal_strlit("NODE_OPTIONS");
    reveal_strlit("UV_THREADPOOL_SIZE");
    reveal_strlit("ELECTRON_DISABLE_SECURITY_WARNINGS");
    reveal_strlit("USERPROFILE");
    reveal_strlit("HOME");
    reveal_strlit("APPDATA");
    reveal_strlit("TEMP");
    reveal_strlit("TMP");
    reveal_strlit("TMPDIR");
    assert("HOME"@[0] == 'H' && "TEMP"@[0] == 'T');
    assert("NODE_OPTIONS"@.len() == 12 && "UV_THREADPOOL_SIZE"@.len() == 18 && "USERPROFILE"@.len() == 11);
    assert("ELECTRON_DISABLE_SECURITY_WARNINGS"@.len() == 34 && "APPDATA"@.len() == 7);
    assert("HOME"@.len() == 4 && "TEMP"@.len() == 4 && "TMP"@.len() == 3 && "TMPDIR"@.len() == 6);
    assert(env[4].0 != env[5 + n].0);
    assert forall|a: int, b: int| 0 <= a < b < env.len() implies (#[trigger] env[a]).0 != (#[trigger] env[b]).0 by {
        assert(a == 4 && b == 5 + n || env[a].0.len() != env[b].0.len());
    }
    assert(i != j ==> env[i].0 != env[j].0);
}

/// The folders that are made are those for the home directory and for temporary files, and
/// that for the application data exactly if it is redirected.
pub proof fn law_folders_are_made(redirect_appdata: bool, path: DataPath)
    ensures
        folders(redirect_appdata).contains(path) <==> path == DataPath::Home || path == DataPath::Tmp || (
        redirect_appdata && path == DataPath::AppData),
{
    let all = folders(redirect_appdata);
    assert(all[0] == DataPath::Home);
    if redirect_appdata {
        assert(all[1] == DataPath::AppData && all[2] == DataPath::Tmp);
    } else {
        assert(all[1] == DataPath::Tmp);
    }
}

/// Every folder that a variable leads code-server to is created first.
pub proof fn law_redirected_folders_exist(redirect_appdata: bool, i: int)
    requires
        0 <= i < environment(redirect_appdata).len(),
        environment(redirect_appdata)[i].1 is Dir,
    ensures
        folders(redirect_appdata).contains(environment(redirect_appdata)[i].1->Dir_0),
{
    let all = folders(redirect_appdata);
    assert(all[0] == DataPath::Home);
    if redirect_appdata {
        assert(all[1] == DataPath::AppData);
        assert(all[2] == DataPath::Tmp);
    } else {
        assert(all[1] == DataPath::Tmp);
    }
}

/// Whether or not the application data is redirected, every other variable is the same.
pub proof fn law_only_appdata_depends_on_the_switch(variable: (Seq<char>, Setting))
    requires
        variable.0 != "APPDATA"@,
    ensures
        environment(true).contains(variable) <==> environment(false).contains(variable),
{
    let on = environment(true);
    let off = environment(false);
    assert(on[5].0 == "APPDATA"@);
    assert(on.remove(5) =~= off);
    if on.contains(variable) {
        let i = on.index_of(variable);
        assert(off[if i < 5 { i } else { i - 1 }] == variable);
    }
    if off.contains(variable) {
        let i = off.index_of(variable);
        assert(on[if i < 5 { i } else { i + 1 }] == variable);
    }
}

/// What some arguments say.
pub open spec fn argument_texts<P>(args: Seq<ServerArg<P>>) -> Seq<Argument<P>> {
    args.map_values(|arg: ServerArg<P>| arg@)
}

/// Lists the arguments of Node.js for an entry script and a port.
pub fn server_args<P>(entry: P, port: u16) -> (args: Vec<ServerArg<P>>)
    ensures
        argument_texts(args@) == arguments(entry, port),
{
    let args = vec![
        ServerArg::Entry(entry),
        ServerArg::Text("--bind-addr".to_owned()),
        ServerArg::Text(endpoint::address(port)),
        ServerArg::Text("--auth".to_owned()),
        ServerArg::Text("none".to_owned()),
        ServerArg::Text("--disable-telemetry".to_owned()),
        ServerArg::Text("--disable-update-check".to_owned()),
        ServerArg::Text("--user-data-dir".to_owned()),
        ServerArg::Dir(DataPath::UserData),
        ServerArg::Text("--extensions-dir".to_owned()),
        ServerArg::Dir(DataPath::Extensions),
    ];
    proof {
        assert(argument_texts(args@) =~= arguments(entry, port));
    }
    args
}

/// The variables that some names and values make.
pub open spec fn variables(env: Seq<(&'static str, EnvValue)>) -> Seq<(Seq<char>, Setting)> {
    env.map_values(|entry: (&'static str, EnvValue)| (entry.0@, entry.1@))
}

/// Lists the environment variables that code-server gets. The heap of Node.js is
/// capped, and everything that would go to the profile of the user goes to the data
/// directory.
pub fn server_env(redirect_appdata: bool) -> (env: Vec<(&'static str, EnvValue)>)
    ensures
        variables(env@) == environment(redirect_appdata),
{
    let mut env: Vec<(&'static str, EnvValue)> = vec![
        ("NODE_OPTIONS", EnvValue::Text("--max-old-space-size=384")),
        ("UV_THREADPOOL_SIZE", EnvValue::Text("8")),
        ("ELECTRON_DISABLE_SECURITY_WARNINGS", EnvValue::Text("true")),
        ("USERPROFILE", EnvValue::Dir(DataPath::Home)),
        ("HOME", EnvValue::Dir(DataPath::Home)),
    ];
    if redirect_appdata {
        env.push(("APPDATA", EnvValue::Dir(DataPath::AppData)));
    }
    env.push(("TEMP", EnvValue::Dir(DataPath::Tmp)));
    env.push(("TMP", EnvValue::Dir(DataPath::Tmp)));
    env.push(("TMPDIR", EnvValue::Dir(DataPath::Tmp)));
    proof {
        assert(variables(env@) =~= environment(redirect_appdata));
    }
    env
}

/// Lists the folders to create before code-server starts.
pub fn server_folders(redirect_appdata: bool) -> (list: Vec<DataPath>)
    ensures
        list@ == folders(redirect_appdata),
{
    let mut list: Vec<DataPath> = vec![DataPath::Home];
    if redirect_appdata {
        list.push(DataPath::AppData);
    }
    list.push(DataPath::Tmp);
    proof {
        assert(list@ =~= folders(redirect_appdata));
    }
    list
}

/// A working directory.
#[derive(Debug)]
pub enum WorkDir<P> {
    Folder(P),
    Text(&'static str),
}

/// What a [`WorkDir`] says.
pub enum Workplace<P> {
    Folder(P),
    Text(Seq<char>),
}

impl<P> View for WorkDir<P> {
    type V = Workplace<P>;

    open spec fn view(&self) -> Workplace<P> {
        match *self {
            WorkDir::Folder(path) => Workplace::Folder(path),
            WorkDir::Text(text) => Workplace::Text(text@),
        }
    }
}

/// Where code-server is run: in the folder of its script, or where we are if that has none.
pub open spec fn workplace<P>(entry_folder: Option<P>) -> Workplace<P> {
    match entry_folder {
        Some(folder) => Workplace::Folder(folder),
        None => Workplace::Text("."@),
    }
}

/// A script that has a folder is run in that folder, whatever it is, and one that has none
/// is run where we are.
pub proof fn law_scripts_run_in_their_folder<P>(folder: P)
    ensures
        workplace(Some(folder)) == Workplace::Folder(folder),
        workplace(None::<P>) == Workplace::<P>::Text("."@),
{
}

/// How code-server is started.
#[derive(Debug)]
pub struct ServerCommand<P> {
    pub program: P,
    pub args: Vec<ServerArg<P>>,
    pub dir: WorkDir<P>,
    /// The folders to create first.
    pub folders: Vec<DataPath>,
    /// The environment variables to set.
    pub env: Vec<(&'static str, EnvValue)>,
}

/// Says how code-server is started: with the Node.js and the entry script that were found,
/// in the folder of the script, or where we are if the script has no folder.
pub fn server_command<P>(
    node: P,
    entry: P,
    entry_folder: Option<P>,
    port: u16,
    redirect_appdata: bool,
) -> (command: ServerCommand<P>)
    ensures
        command.program == node,
        argument_texts(command.args@) == arguments(entry, port),
        command.dir@ == workplace(entry_folder),
        command.dir@ == (match entry_folder {
            Some(folder) => Workplace::Folder(folder),
            None => Workplace::Text("."@),
        }),
        command.folders@ == folders(redirect_appdata),
        variables(command.env@) == environment(redirect_appdata),
{
    ServerCommand {
        program: node,
        args: server_args(entry, port),
        dir: match entry_folder {
            Some(folder) => WorkDir::Folder(folder),
            None => WorkDir::Text("."),
        },
        folders: server_folders(redirect_appdata),
        env: server_env(redirect_appdata),
    }
}

} // verus!
