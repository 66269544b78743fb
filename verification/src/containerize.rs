//! The tool that builds a project's container image and converts it for
//! Apptainer, as far as it decides: reading its command line, naming the
//! files it writes, and making up the commands it runs.

use vstd::prelude::*;
use vstd::string::StringExecFns;
use crate::utils::chars::chars_of;

verus! {

/// The program that builds and saves the image.
#[derive(Clone, Copy, Debug, PartialEq, Eq, Structural)]
pub enum ContainerRuntime {
    Docker,
    Podman,
}

/// What the tool was asked to do.
#[derive(Debug)]
pub struct Config {
    /// The name of the project, which names the image and the files.
    pub project: String,
    /// The runtime to build with.
    pub container: ContainerRuntime,
    /// Whether files of an earlier run are removed before building.
    pub cleanup: bool,
}

/// Why the arguments give no configuration. On each of these the tool
/// shows its usage and stops.
#[derive(Debug)]
pub enum UsageError {
    /// `--help` or `-h` was given.
    Help,
    /// `--container` was the last argument.
    MissingContainerValue,
    /// `--container` was followed by the value held here, which names no
    /// runtime.
    UnknownContainerValue(String),
    /// The argument held here came after the project name and is no
    /// option.
    UnexpectedArgument(String),
    /// The argument held here begins with `--` and is no option.
    UnknownOption(String),
    /// No project was named.
    MissingProject,
}

/// A configuration, as values.
pub struct ConfigView {
    pub project: Seq<char>,
    pub container: ContainerRuntime,
    pub cleanup: bool,
}

/// A failure to read the arguments, as values.
pub enum UsageErrorView {
    Help,
    MissingContainerValue,
    UnknownContainerValue(Seq<char>),
    UnexpectedArgument(Seq<char>),
    UnknownOption(Seq<char>),
    MissingProject,
}

/// What has been read of the arguments so far.
pub struct Reading {
    pub project: Option<Seq<char>>,
    pub container: ContainerRuntime,
    pub cleanup: bool,
}

impl View for Config {
    type V = ConfigView;

    open spec fn view(&self) -> ConfigView {
        ConfigView { project: self.project@, container: self.container, cleanup: self.cleanup }
    }
}

impl View for UsageError {
    type V = UsageErrorView;

    open spec fn view(&self) -> UsageErrorView {
        match self {
            UsageError::Help => UsageErrorView::Help,
            UsageError::MissingContainerValue => UsageErrorView::MissingContainerValue,
            UsageError::UnknownContainerValue(value) => UsageErrorView::UnknownContainerValue(
                value@,
            ),
            UsageError::UnexpectedArgument(argument) => UsageErrorView::UnexpectedArgument(
                argument@,
            ),
            UsageError::UnknownOption(option) => UsageErrorView::UnknownOption(option@),
            UsageError::MissingProject => UsageErrorView::MissingProject,
        }
    }
}

/// The arguments of a command line, as values.
pub open spec fn words(args: Seq<String>) -> Seq<Seq<char>> {
    args.map_values(|arg: String| arg@)
}

/// The runtime that a name stands for.
pub open spec fn spec_runtime(name: Seq<char>) -> Option<ContainerRuntime> {
    if name == "docker"@ {
        Some(ContainerRuntime::Docker)
    } else if name == "podman"@ {
        Some(ContainerRuntime::Podman)
    } else {
        None
    }
}

/// Whether an argument has the form of an option: it begins with two
/// dashes.
pub open spec fn spec_is_option(argument: Seq<char>) -> bool {
    argument.len() >= 2 && argument[0] == '-' && argument[1] == '-'
}

/// What the arguments from the one at `at` on make of what has been read
/// before them. `--help` and `-h` stop the reading; `--container` takes
/// the argument after it as the name of a runtime; `--cleanup` asks for
/// the cleanup; anything else that has not the form of an option is the
/// project, and only one such may come; anything else is refused.
pub open spec fn spec_read(args: Seq<Seq<char>>, at: int, read: Reading) -> Result<
    Reading,
    UsageErrorView,
>
    decreases args.len() - at,
{
    if at < 0 || at >= args.len() {
        Ok(read)
    } else if args[at] == "--help"@ || args[at] == "-h"@ {
        Err(UsageErrorView::Help)
    } else if args[at] == "--container"@ {
        if at + 1 >= args.len() {
            Err(UsageErrorView::MissingContainerValue)
        } else {
            match spec_runtime(args[at + 1]) {
                Some(container) => spec_read(args, at + 2, Reading { container, ..read }),
                None => Err(UsageErrorView::UnknownContainerValue(args[at + 1])),
            }
        }
    } else if args[at] == "--cleanup"@ {
        spec_read(args, at + 1, Reading { cleanup: true, ..read })
    } else if !spec_is_option(args[at]) {
        if read.project is None {
            spec_read(args, at + 1, Reading { project: Some(args[at]), ..read })
        } else {
            Err(UsageErrorView::UnexpectedArgument(args[at]))
        }
    } else {
        Err(UsageErrorView::UnknownOption(args[at]))
    }
}

/// The configuration that a command line asks for. Its first word is the
/// program's name; the others are read in order, from a state in which no
/// project is named, the runtime is Podman and nothing is cleaned up.
/// A project must have been named when all are read.
pub open spec fn spec_from_args(args: Seq<Seq<char>>) -> Result<ConfigView, UsageErrorView> {
    match spec_read(
        args,
        1,
        Reading { project: None, container: ContainerRuntime::Podman, cleanup: false },
    ) {
        Err(failure) => Err(failure),
        Ok(read) => match read.project {
            None => Err(UsageErrorView::MissingProject),
            Some(project) => Ok(
                ConfigView { project, container: read.container, cleanup: read.cleanup },
            ),
        },
    }
}

/// Whether the characters are those of `word`.
fn spells(characters: &Vec<char>, word: &str) -> (same: bool)
    ensures
        same == (characters@ == word@),
{
    let expected = chars_of(word);
    if characters.len() != expected.len() {
        return false;
    }
    let mut i: usize = 0;
    while i < characters.len()
        invariant
            i <= characters.len(),
            characters.len() == expected.len(),
            expected@ == word@,
            forall|k: int| 0 <= k < i ==> characters@[k] == expected@[k],
        decreases characters.len() - i,
    {
        if characters[i] != expected[i] {
            return false;
        }
        i += 1;
    }
    proof {
        assert(characters@ =~= expected@);
    }
    true
}

impl ContainerRuntime {
    /// The name of the runtime, which is also the name of its program.
    pub open spec fn spec_as_str(self) -> Seq<char> {
        match self {
            ContainerRuntime::Docker => "docker"@,
            ContainerRuntime::Podman => "podman"@,
        }
    }

    /// The name of the runtime, which is also the name of its program.
    pub fn as_str(&self) -> (name: &'static str)
        ensures
            name@ == self.spec_as_str(),
    {
        match self {
            ContainerRuntime::Docker => "docker",
            ContainerRuntime::Podman => "podman",
        }
    }

    /// The runtime that a name stands for, if it stands for one.
    pub fn from_name(name: &str) -> (runtime: Option<ContainerRuntime>)
        ensures
            runtime == spec_runtime(name@),
    {
        let characters = chars_of(name);
        if spells(&characters, "docker") {
            Some(ContainerRuntime::Docker)
        } else if spells(&characters, "podman") {
            Some(ContainerRuntime::Podman)
        } else {
            None
        }
    }
}

impl Config {
    /// Reads a command line: see [`spec_from_args`]. The first word, the
    /// program's name, must be there.
    pub fn from_args(args: Vec<String>) -> (config: Result<Config, UsageError>)
        requires
            args.len() > 0,
        ensures
            match config {
                Ok(config) => spec_from_args(words(args@)) == Ok::<ConfigView, UsageErrorView>(
                    config@,
                ),
                Err(failure) => spec_from_args(words(args@)) == Err::<ConfigView, UsageErrorView>(
                    failure@,
                ),
            },
    {
        let mut project: Option<String> = None;
        let mut container = ContainerRuntime::Podman;
        let mut cleanup = false;
        let mut i: usize = 1;
        let ghost all = words(args@);
        let ghost initial = Reading {
            project: None,
            container: ContainerRuntime::Podman,
            cleanup: false,
        };
        while i < args.len()
            invariant
                1 <= i <= args.len(),
                all == words(args@),
                initial == (Reading {
                    project: None,
                    container: ContainerRuntime::Podman,
                    cleanup: false,
                }),
                spec_read(all, 1, initial) == spec_read(
                    all,
                    i as int,
                    Reading {
                        project: match project {
                            Some(name) => Some(name@),
                            None => None,
                        },
                        container,
                        cleanup,
                    },
                ),
            decreases args.len() - i,
        {
            let argument = chars_of(args[i].as_str());
            assert(argument@ == all[i as int]);
            if spells(&argument, "--help") || spells(&argument, "-h") {
                return Err(UsageError::Help);
            } else if spells(&argument, "--container") {
                if i + 1 >= args.len() {
                    return Err(UsageError::MissingContainerValue);
                }
                assert(args@[i + 1]@ == all[i + 1]);
                match ContainerRuntime::from_name(args[i + 1].as_str()) {
                    Some(runtime) => {
                        container = runtime;
                    },
                    None => {
                        return Err(UsageError::UnknownContainerValue(args[i + 1].clone()));
                    },
                }
                i += 2;
            } else if spells(&argument, "--cleanup") {
                cleanup = true;
                i += 1;
            } else if !(argument.len() >= 2 && argument[0] == '-' && argument[1] == '-') {
                if project.is_none() {
                    project = Some(args[i].clone());
                } else {
                    return Err(UsageError::UnexpectedArgument(args[i].clone()));
                }
                i += 1;
            } else {
                return Err(UsageError::UnknownOption(args[i].clone()));
            }
        }
        match project {
            Some(project) => Ok(Config { project, container, cleanup }),
            None => Err(UsageError::MissingProject),
        }
    }

    /// The name of the file to which the image is saved.
    pub fn tar_file(&self) -> (name: String)
        ensures
            name@ == self.project@ + ".tar"@,
    {
        let mut name = self.project.clone();
        name.append(".tar");
        name
    }

    /// The name of the file to which the image is converted.
    pub fn sif_file(&self) -> (name: String)
        ensures
            name@ == self.project@ + ".sif"@,
    {
        let mut name = self.project.clone();
        name.append(".sif");
        name
    }
}

impl UsageError {
    /// What the tool says of the failure before it shows its usage. A
    /// request for help is no failure and has nothing said of it.
    pub open spec fn spec_message(self) -> Option<Seq<char>> {
        match self {
            UsageError::Help => None,
            UsageError::MissingContainerValue => Some("--container requires a value"@),
            UsageError::UnknownContainerValue(value) => Some(
                "unknown --container value '"@ + value@ + "'"@,
            ),
            UsageError::UnexpectedArgument(argument) => Some(
                "unexpected argument '"@ + argument@ + "'"@,
            ),
            UsageError::UnknownOption(option) => Some("unknown option '"@ + option@ + "'"@),
            UsageError::MissingProject => Some("missing project name"@),
        }
    }

    /// What the tool says of the failure before it shows its usage.
    pub fn message(&self) -> (text: Option<String>)
        ensures
            match text {
                Some(text) => self.spec_message() == Some(text@),
                None => self.spec_message() is None,
            },
    {
        match self {
            UsageError::Help => None,
            UsageError::MissingContainerValue => Some(
                String::from_str("--container requires a value"),
            ),
            UsageError::UnknownContainerValue(value) => Some(
                quoted("unknown --container value '", value.as_str()),
            ),
            UsageError::UnexpectedArgument(argument) => Some(
                quoted("unexpected argument '", argument.as_str()),
            ),
            UsageError::UnknownOption(option) => Some(quoted("unknown option '", option.as_str())),
            UsageError::MissingProject => Some(String::from_str("missing project name")),
        }
    }
}

/// `opening`, `word` and a closing quote.
fn quoted(opening: &str, word: &str) -> (text: String)
    ensures
        text@ == opening@ + word@ + "'"@,
{
    let mut text = String::from_str(opening);
    text.append(word);
    text.append("'");
    text
}

/// `before` and then `after`.
fn joined(before: &str, after: &str) -> (text: String)
    ensures
        text@ == before@ + after@,
{
    let mut text = String::from_str(before);
    text.append(after);
    text
}

/// A program to run, with what it is run on and where its output goes.
#[derive(Debug)]
pub struct Command {
    /// The program.
    pub program: String,
    /// Its arguments, in order.
    pub arguments: Vec<String>,
    /// Variables set in the environment before it runs, each a name and
    /// a value.
    pub environment: Vec<(String, String)>,
    /// The file that takes its output and its errors.
    pub log: String,
}

/// A command, as values.
pub struct CommandView {
    pub program: Seq<char>,
    pub arguments: Seq<Seq<char>>,
    pub environment: Seq<(Seq<char>, Seq<char>)>,
    pub log: Seq<char>,
}

impl View for Command {
    type V = CommandView;

    open spec fn view(&self) -> CommandView {
        CommandView {
            program: self.program@,
            arguments: words(self.arguments@),
            environment: self.environment@.map_values(
                |variable: (String, String)| (variable.0@, variable.1@),
            ),
            log: self.log@,
        }
    }
}

impl ContainerRuntime {
    /// The command that builds the image of a project from the
    /// `Containerfile` of the working directory. Docker builds with
    /// BuildKit, on the host's network, and says all it does.
    pub open spec fn spec_build(self, project: Seq<char>) -> CommandView {
        match self {
            ContainerRuntime::Docker => CommandView {
                program: "docker"@,
                arguments: seq![
                    "build"@,
                    "--network=host"@,
                    "--build-arg"@,
                    "BUILDKIT_INLINE_CACHE=1"@,
                    "--progress=plain"@,
                    "-t"@,
                    project,
                    "-f"@,
                    "Containerfile"@,
                    "."@,
                ],
                environment: seq![("DOCKER_BUILDKIT"@, "1"@)],
                log: "log."@ + project + ".build"@,
            },
            ContainerRuntime::Podman => CommandView {
                program: "podman"@,
                arguments: seq!["build"@, "-t"@, project, "-f"@, "Containerfile"@, "."@],
                environment: Seq::empty(),
                log: "log."@ + project + ".build"@,
            },
        }
    }

    /// The command that saves the image of a project to its tar file.
    /// Podman keeps the images it builds under `localhost/`.
    pub open spec fn spec_dump(self, project: Seq<char>) -> CommandView {
        match self {
            ContainerRuntime::Docker => CommandView {
                program: "docker"@,
                arguments: seq!["save"@, "-o"@, project + ".tar"@, project],
                environment: Seq::empty(),
                log: "log."@ + project + ".dump"@,
            },
            ContainerRuntime::Podman => CommandView {
                program: "podman"@,
                arguments: seq!["save"@, "-o"@, project + ".tar"@, "localhost/"@ + project],
                environment: Seq::empty(),
                log: "log."@ + project + ".dump"@,
            },
        }
    }

    /// The command that converts the tar file of a project to an
    /// Apptainer image, whichever runtime built it.
    pub open spec fn spec_convert(self, project: Seq<char>) -> CommandView {
        CommandView {
            program: "apptainer"@,
            arguments: seq![
                "build"@,
                project + ".sif"@,
                "docker-archive://"@ + (project + ".tar"@),
            ],
            environment: Seq::empty(),
            log: "log."@ + project + ".convert"@,
        }
    }

    /// The command that builds the image: see
    /// [`ContainerRuntime::spec_build`].
    pub fn build(&self, config: &Config) -> (command: Command)
        ensures
            command@ == self.spec_build(config.project@),
    {
        let project = config.project.as_str();
        let mut log = joined("log.", project);
        log.append(".build");
        let mut arguments: Vec<String> = Vec::new();
        let mut environment: Vec<(String, String)> = Vec::new();
        arguments.push(String::from_str("build"));
        match self {
            ContainerRuntime::Docker => {
                environment.push((String::from_str("DOCKER_BUILDKIT"), String::from_str("1")));
                arguments.push(String::from_str("--network=host"));
                arguments.push(String::from_str("--build-arg"));
                arguments.push(String::from_str("BUILDKIT_INLINE_CACHE=1"));
                arguments.push(String::from_str("--progress=plain"));
            },
            ContainerRuntime::Podman => {},
        }
        arguments.push(String::from_str("-t"));
        arguments.push(config.project.clone());
        arguments.push(String::from_str("-f"));
        arguments.push(String::from_str("Containerfile"));
        arguments.push(String::from_str("."));
        let command = Command {
            program: String::from_str(self.as_str()),
            arguments,
            environment,
            log,
        };
        proof {
            assert(command@.arguments =~= self.spec_build(config.project@).arguments);
            assert(command@.environment =~= self.spec_build(config.project@).environment);
        }
        command
    }

    /// The command that saves the image: see
    /// [`ContainerRuntime::spec_dump`].
    pub fn dump(&self, config: &Config) -> (command: Command)
        ensures
            command@ == self.spec_dump(config.project@),
    {
        let project = config.project.as_str();
        let mut log = joined("log.", project);
        log.append(".dump");
        let mut arguments: Vec<String> = Vec::new();
        arguments.push(String::from_str("save"));
        arguments.push(String::from_str("-o"));
        arguments.push(config.tar_file());
        match self {
            ContainerRuntime::Docker => {
                arguments.push(config.project.clone());
            },
            ContainerRuntime::Podman => {
                arguments.push(joined("localhost/", project));
            },
        }
        let command = Command {
            program: String::from_str(self.as_str()),
            arguments,
            environment: Vec::new(),
            log,
        };
        proof {
            assert(command@.arguments =~= self.spec_dump(config.project@).arguments);
            assert(command@.environment =~= self.spec_dump(config.project@).environment);
        }
        command
    }

    /// The command that converts the saved image: see
    /// [`ContainerRuntime::spec_convert`].
    pub fn convert(&self, config: &Config) -> (command: Command)
        ensures
            command@ == self.spec_convert(config.project@),
    {
        let project = config.project.as_str();
        let mut log = joined("log.", project);
        log.append(".convert");
        let tar_file = config.tar_file();
        let mut arguments: Vec<String> = Vec::new();
        arguments.push(String::from_str("build"));
        arguments.push(config.sif_file());
        arguments.push(joined("docker-archive://", tar_file.as_str()));
        let command = Command {
            program: String::from_str("apptainer"),
            arguments,
            environment: Vec::new(),
            log,
        };
        proof {
            assert(command@.arguments =~= self.spec_convert(config.project@).arguments);
            assert(command@.environment =~= self.spec_convert(config.project@).environment);
        }
        command
    }
}

} // verus!
