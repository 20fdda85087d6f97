use vstd::prelude::*;

verus! {

/// A program to run in place of the child process, with the arguments that it
/// is started with. The first argument is the program's own name.
pub struct ShellCommand {
    pub program: String,
    pub arguments: Vec<String>,
}

/// The size of the window as the terminal driver is told it.
#[derive(Clone, Copy, Debug, PartialEq, Eq, Structural)]
pub struct WindowSize {
    pub ws_row: u16,
    pub ws_col: u16,
    pub ws_xpixel: u16,
    pub ws_ypixel: u16,
}

/// The views of the strings of a list, in order.
pub open spec fn views(strings: Seq<String>) -> Seq<Seq<char>> {
    Seq::new(strings.len(), |i: int| strings[i]@)
}

/// The entry of the environment that gives `name` the value `value`.
pub open spec fn entry(name: Seq<char>, value: Seq<char>) -> Seq<char> {
    name + seq!['='] + value
}

/// Whether the child gets its own value for a variable of this name, so that
/// the parent's is not handed on.
pub open spec fn is_overridden(name: Seq<char>) -> bool {
    name == "TERM"@ || name == "TERM_PROGRAM"@
}

/// The entries that the child inherits from the first `count` variables of the
/// parent: all but those that the child gets its own value for, in order.
pub open spec fn inherited(parent: Seq<(String, String)>, count: int) -> Seq<Seq<char>>
    decreases count,
{
    if count <= 0 {
        Seq::empty()
    } else {
        let before = inherited(parent, count - 1);
        let (name, value) = parent[count - 1];
        if is_overridden(name@) {
            before
        } else {
            before.push(entry(name@, value@))
        }
    }
}

/// The environment of the child: what it inherits, then the terminal type and
/// the name of the terminal program.
pub open spec fn child_environment_of(parent: Seq<(String, String)>) -> Seq<Seq<char>> {
    inherited(parent, parent.len() as int).push(entry("TERM"@, "xterm-256color"@)).push(
        entry("TERM_PROGRAM"@, "velocity"@),
    )
}

/// The window size for a grid of `rows` by `cols` characters. The numbers are
/// cut to sixteen bits, which is what the driver takes; the sizes in pixels do
/// not matter and are 100.
pub fn window_size(rows: usize, cols: usize) -> (size: WindowSize)
    ensures
        size.ws_row == rows % 0x10000,
        size.ws_col == cols % 0x10000,
        size.ws_xpixel == 100,
        size.ws_ypixel == 100,
{
    WindowSize {
        ws_row: (rows % 0x10000) as u16,
        ws_col: (cols % 0x10000) as u16,
        ws_xpixel: 100,
        ws_ypixel: 100,
    }
}

/// The shell to start: the one that the user has set, or `/usr/bin/zsh` where
/// none is set.
pub fn preferred_shell(configured: Option<String>) -> (shell: String)
    ensures
        shell@ == (match configured {
            Some(path) => path@,
            None => "/usr/bin/zsh"@,
        }),
{
    match configured {
        Some(path) => path,
        None => String::from_str("/usr/bin/zsh"),
    }
}

/// The command that starts the user's shell as a login shell.
pub fn login_shell_command(shell: &str) -> (command: ShellCommand)
    ensures
        command.program@ == shell@,
        views(command.arguments@) == seq![shell@, "--login"@],
{
    let mut arguments: Vec<String> = Vec::new();
    arguments.push(String::from_str(shell));
    arguments.push(String::from_str("--login"));
    proof {
        assert(views(arguments@) =~= seq![shell@, "--login"@]);
    }
    ShellCommand { program: String::from_str(shell), arguments }
}

/// The command that logs the user in without asking for a password, which
/// starts the shell that the user prefers.
pub fn forced_login_command(user_name: &str) -> (command: ShellCommand)
    ensures
        command.program@ == "/usr/bin/login"@,
        views(command.arguments@) == seq!["/usr/bin/login"@, "-f"@, user_name@],
{
    let mut arguments: Vec<String> = Vec::new();
    arguments.push(String::from_str("/usr/bin/login"));
    arguments.push(String::from_str("-f"));
    arguments.push(String::from_str(user_name));
    proof {
        assert(views(arguments@) =~= seq!["/usr/bin/login"@, "-f"@, user_name@]);
    }
    ShellCommand { program: String::from_str("/usr/bin/login"), arguments }
}

/// The directory in which the shell starts: the user's home, or the root where
/// no home is known.
pub fn working_directory(home: Option<String>) -> (directory: String)
    ensures
        directory@ == (match home {
            Some(path) => path@,
            None => "/"@,
        }),
{
    match home {
        Some(path) => path,
        None => String::from_str("/"),
    }
}

fn is_overridden_name(name: &String) -> (r: bool)
    ensures
        r == is_overridden(name@),
{
    let term: String = String::from_str("TERM");
    let term_program: String = String::from_str("TERM_PROGRAM");
    *name == term || *name == term_program
}

fn make_entry(name: &str, value: &str) -> (line: String)
    ensures
        line@ == entry(name@, value@),
{
    let mut line: String = String::from_str(name);
    line.append("=");
    line.append(value);
    proof {
        reveal_strlit("=");
        assert("="@ =~= seq!['=']);
    }
    line
}

/// The environment of the child, as `NAME=value` entries: the parent's
/// variables in their order, but for `TERM` and `TERM_PROGRAM`, which the child
/// gets as `xterm-256color` and `velocity` at the end.
pub fn child_environment(parent: &Vec<(String, String)>) -> (environment: Vec<String>)
    ensures
        views(environment@) == child_environment_of(parent@),
{
    let mut environment: Vec<String> = Vec::new();
    let mut i: usize = 0;
    while i < parent.len()
        invariant
            i <= parent.len(),
            views(environment@) == inherited(parent@, i as int),
        decreases parent.len() - i,
    {
        let ghost before = environment@;
        if !is_overridden_name(&parent[i].0) {
            environment.push(make_entry(parent[i].0.as_str(), parent[i].1.as_str()));
            proof {
                assert(views(environment@) =~= views(before).push(
                    entry(parent@[i as int].0@, parent@[i as int].1@),
                ));
            }
        }
        i += 1;
    }
    let ghost before = environment@;
    environment.push(make_entry("TERM", "xterm-256color"));
    let ghost middle = environment@;
    environment.push(make_entry("TERM_PROGRAM", "velocity"));
    proof {
        assert(views(middle) =~= views(before).push(entry("TERM"@, "xterm-256color"@)));
        assert(views(environment@) =~= views(middle).push(entry("TERM_PROGRAM"@, "velocity"@)));
    }
    environment
}

} // verus!
