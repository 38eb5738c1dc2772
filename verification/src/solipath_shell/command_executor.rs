use vstd::prelude::*;

verus! {

/// The model of a [`CommandLine`].
pub struct CommandLineView {
    pub program: Seq<char>,
    pub arguments: Seq<Seq<char>>,
}

/// A program and the arguments it is started with.
#[derive(Debug, PartialEq, Eq)]
pub struct CommandLine {
    program: String,
    arguments: Vec<String>,
}

impl DeepView for CommandLine {
    type V = CommandLineView;

    closed spec fn deep_view(&self) -> CommandLineView {
        CommandLineView { program: self.program@, arguments: self.arguments.deep_view() }
    }
}

impl View for CommandLine {
    type V = CommandLineView;

    open spec fn view(&self) -> CommandLineView {
        self.deep_view()
    }
}

impl CommandLine {
    pub fn get_program(&self) -> (program: &String)
        ensures
            program@ == self@.program,
    {
        &self.program
    }

    pub fn get_arguments(&self) -> (arguments: &Vec<String>)
        ensures
            arguments.deep_view() == self@.arguments,
    {
        &self.arguments
    }
}

/// How a command given as words is started: on Windows through `cmd /C`
/// with the words as further arguments; elsewhere the first word is the
/// program and the others are its arguments.
pub open spec fn command_line_of(
    operating_system: Seq<char>,
    commands: Seq<Seq<char>>,
) -> CommandLineView {
    if operating_system == "windows"@ {
        CommandLineView { program: "cmd"@, arguments: seq!["/C"@] + commands }
    } else {
        CommandLineView { program: commands[0], arguments: commands.skip(1) }
    }
}

/// How a command given as one shell line is started: on Windows through
/// `cmd /C`, elsewhere through `bash -c`, with the line as the one further
/// argument.
pub open spec fn shell_command_line_of(
    operating_system: Seq<char>,
    command: Seq<char>,
) -> CommandLineView {
    if operating_system == "windows"@ {
        CommandLineView { program: "cmd"@, arguments: seq!["/C"@, command] }
    } else {
        CommandLineView { program: "bash"@, arguments: seq!["-c"@, command] }
    }
}

/// Knows how commands are started on one operating system.
pub struct CommandExecutor {
    operating_system: String,
}

impl CommandExecutor {
    /// An executor for the operating system of that name.
    pub fn new(operating_system: &str) -> (executor: Self)
        ensures
            executor.operating_system() == operating_system@,
    {
        CommandExecutor { operating_system: String::from_str(operating_system) }
    }

    /// The operating system that commands are started on.
    pub closed spec fn operating_system(&self) -> Seq<char> {
        self.operating_system@
    }

    pub fn get_operating_system(&self) -> (operating_system: &String)
        ensures
            operating_system@ == self.operating_system(),
    {
        &self.operating_system
    }

    /// Whether commands are started on Windows.
    pub fn is_windows(&self) -> (windows: bool)
        ensures
            windows == (self.operating_system() == "windows"@),
    {
        self.operating_system == String::from_str("windows")
    }

    /// How the command with the words `commands` is started. Off Windows
    /// there has to be a first word.
    pub fn setup_command(&self, commands: &[String]) -> (command: CommandLine)
        requires
            self.operating_system() == "windows"@ || commands@.len() > 0,
        ensures
            command@ == command_line_of(self.operating_system(), commands.deep_view()),
    {
        let windows = self.is_windows();
        let mut arguments: Vec<String> = Vec::new();
        let program = if windows {
            arguments.push(String::from_str("/C"));
            String::from_str("cmd")
        } else {
            commands[0].clone()
        };
        let first: usize = if windows {
            0
        } else {
            1
        };
        let ghost head = arguments.deep_view();
        assert(head =~= if windows {
            seq!["/C"@]
        } else {
            Seq::empty()
        });
        let mut i: usize = first;
        while i < commands.len()
            invariant
                first <= i <= commands.len(),
                arguments.deep_view() =~= head + commands.deep_view().subrange(
                    first as int,
                    i as int,
                ),
            decreases commands.len() - i,
        {
            let ghost before = arguments.deep_view();
            let word = commands[i].clone();
            arguments.push(word);
            assert(arguments.deep_view() =~= before.push(word@));
            i += 1;
        }
        assert(commands.deep_view().subrange(first as int, i as int) =~= commands.deep_view().skip(
            first as int,
        ));
        assert(commands.deep_view().skip(0) =~= commands.deep_view());
        assert(Seq::<Seq<char>>::empty() + commands.deep_view().skip(1)
            =~= commands.deep_view().skip(1));
        CommandLine { program, arguments }
    }

    /// How the shell line `commands` is started.
    pub fn setup_single_string_command(&self, commands: &String) -> (command: CommandLine)
        ensures
            command@ == shell_command_line_of(self.operating_system(), commands@),
    {
        let mut arguments: Vec<String> = Vec::new();
        let program = if self.is_windows() {
            arguments.push(String::from_str("/C"));
            String::from_str("cmd")
        } else {
            arguments.push(String::from_str("-c"));
            String::from_str("bash")
        };
        arguments.push(commands.clone());
        assert(arguments.deep_view() =~= if self.operating_system() == "windows"@ {
            seq!["/C"@, commands@]
        } else {
            seq!["-c"@, commands@]
        });
        CommandLine { program, arguments }
    }
}

} // verus!
