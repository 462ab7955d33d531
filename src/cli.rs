//! The command-line grammar, and what each command asks for.
//!
//! The commands are `configure <provider>` and
//! `get [--city <CITY>] [--data <DATA>]`, where an option may also carry its
//! value after `=` (`--city=Paris`). `-h`, `--help` or `help` ask for usage.

use vstd::prelude::*;

use crate::config::AppConfig;
use crate::text::{has_prefix, opt_view, str_eq, strip_prefix};

verus! {

/// A parsed command line.
#[derive(Debug, Clone)]
pub struct Cli {
    pub cmd: Commands,
}

/// The subcommands.
#[derive(Debug, Clone)]
pub enum Commands {
    /// Select the weather provider and persist it.
    Configure { provider: String },
    /// Fetch weather data for a city; `data` is `now` unless given.
    Get { city: Option<String>, data: String },
}

/// The mathematical value of a [`Commands`].
pub ghost enum CommandsModel {
    Configure { provider: Seq<char> },
    Get { city: Option<Seq<char>>, data: Seq<char> },
}

impl View for Commands {
    type V = CommandsModel;

    open spec fn view(&self) -> CommandsModel {
        match self {
            Commands::Configure { provider } => CommandsModel::Configure { provider: provider@ },
            Commands::Get { city, data } => CommandsModel::Get {
                city: opt_view(*city),
                data: data@,
            },
        }
    }
}

/// Why a command line was refused.
#[derive(Debug, Clone)]
pub enum CliError {
    /// No subcommand was given.
    MissingCommand,
    /// The first argument names no subcommand.
    UnknownCommand(String),
    /// `configure` was given no provider name.
    MissingProvider,
    /// An argument that the subcommand does not take.
    UnexpectedArgument(String),
    /// The option was given without a value.
    MissingValue(String),
    /// The option was given more than once.
    DuplicateOption(String),
    /// `-h`, `--help` or `help` asked for the usage text.
    HelpRequested,
}

/// The mathematical value of a [`CliError`].
pub ghost enum CliErrorView {
    MissingCommand,
    UnknownCommand(Seq<char>),
    MissingProvider,
    UnexpectedArgument(Seq<char>),
    MissingValue(Seq<char>),
    DuplicateOption(Seq<char>),
    HelpRequested,
}

impl View for CliError {
    type V = CliErrorView;

    open spec fn view(&self) -> CliErrorView {
        match self {
            CliError::MissingCommand => CliErrorView::MissingCommand,
            CliError::UnknownCommand(s) => CliErrorView::UnknownCommand(s@),
            CliError::MissingProvider => CliErrorView::MissingProvider,
            CliError::UnexpectedArgument(s) => CliErrorView::UnexpectedArgument(s@),
            CliError::MissingValue(s) => CliErrorView::MissingValue(s@),
            CliError::DuplicateOption(s) => CliErrorView::DuplicateOption(s@),
            CliError::HelpRequested => CliErrorView::HelpRequested,
        }
    }
}

/// The characters of each argument.
pub open spec fn arg_views(args: Seq<&str>) -> Seq<Seq<char>> {
    args.map_values(|a: &str| a@)
}

/// The options that `get` takes.
#[derive(Debug, Clone, Copy, PartialEq, Eq, Structural)]
pub enum OptionName {
    City,
    Data,
}

/// How an option is written on the command line.
pub open spec fn option_text(name: OptionName) -> Seq<char> {
    match name {
        OptionName::City => "--city"@,
        OptionName::Data => "--data"@,
    }
}

/// Whether an argument asks for help.
pub open spec fn is_help(t: Seq<char>) -> bool {
    t == "-h"@ || t == "--help"@
}

/// The option that an argument names, with the value it carries after `=`
/// (`--city=Paris`), if any.
pub open spec fn option_token(t: Seq<char>) -> Option<(OptionName, Option<Seq<char>>)> {
    if t == "--city"@ {
        Some((OptionName::City, None))
    } else if t == "--data"@ {
        Some((OptionName::Data, None))
    } else if has_prefix(t, "--city="@) {
        Some((OptionName::City, Some(t.subrange("--city="@.len() as int, t.len() as int))))
    } else if has_prefix(t, "--data="@) {
        Some((OptionName::Data, Some(t.subrange("--data="@.len() as int, t.len() as int))))
    } else {
        None
    }
}

/// The options of `get`, read left to right from `rest` on top of the
/// values `city` and `data` already read. A value follows its option as the
/// next argument, or after `=` in the same one.
pub open spec fn parse_get_options(
    rest: Seq<Seq<char>>,
    city: Option<Seq<char>>,
    data: Option<Seq<char>>,
) -> Result<(Option<Seq<char>>, Option<Seq<char>>), CliErrorView>
    decreases rest.len(),
{
    if rest.len() == 0 {
        Ok((city, data))
    } else if is_help(rest[0]) {
        Err(CliErrorView::HelpRequested)
    } else {
        match option_token(rest[0]) {
            None => Err(CliErrorView::UnexpectedArgument(rest[0])),
            Some((name, inline)) => {
                if inline is None && rest.len() < 2 {
                    Err(CliErrorView::MissingValue(option_text(name)))
                } else {
                    let value = match inline {
                        Some(v) => v,
                        None => rest[1],
                    };
                    let used: int = if inline is Some {
                        1
                    } else {
                        2
                    };
                    let next = rest.subrange(used, rest.len() as int);
                    match name {
                        OptionName::City => if city is Some {
                            Err(CliErrorView::DuplicateOption(option_text(name)))
                        } else {
                            parse_get_options(next, Some(value), data)
                        },
                        OptionName::Data => if data is Some {
                            Err(CliErrorView::DuplicateOption(option_text(name)))
                        } else {
                            parse_get_options(next, city, Some(value))
                        },
                    }
                }
            },
        }
    }
}

/// The command that a command line states; `args[0]` is the program name.
pub open spec fn parse_args(args: Seq<Seq<char>>) -> Result<CommandsModel, CliErrorView> {
    if args.len() < 2 {
        Err(CliErrorView::MissingCommand)
    } else if is_help(args[1]) || args[1] == "help"@ {
        Err(CliErrorView::HelpRequested)
    } else if args[1] == "configure"@ {
        if args.len() < 3 {
            Err(CliErrorView::MissingProvider)
        } else if is_help(args[2]) {
            Err(CliErrorView::HelpRequested)
        } else if args.len() > 3 {
            Err(CliErrorView::UnexpectedArgument(args[3]))
        } else {
            Ok(CommandsModel::Configure { provider: args[2] })
        }
    } else if args[1] == "get"@ {
        match parse_get_options(args.subrange(2, args.len() as int), None, None) {
            Ok((city, data)) => Ok(
                CommandsModel::Get {
                    city,
                    data: match data {
                        Some(d) => d,
                        None => "now"@,
                    },
                },
            ),
            Err(e) => Err(e),
        }
    } else {
        Err(CliErrorView::UnknownCommand(args[1]))
    }
}

/// How `name` is written on the command line.
pub fn option_name_text(name: OptionName) -> (r: String)
    ensures
        r@ == option_text(name),
{
    match name {
        OptionName::City => "--city".to_owned(),
        OptionName::Data => "--data".to_owned(),
    }
}

/// Whether an argument asks for help.
pub fn is_help_arg(t: &str) -> (r: bool)
    ensures
        r == is_help(t@),
{
    str_eq(t, "-h") || str_eq(t, "--help")
}

/// Reads an argument as an option of `get`.
pub fn read_option(t: &str) -> (r: Option<(OptionName, Option<String>)>)
    ensures
        match r {
            Some((name, value)) => option_token(t@) == Some((name, opt_view(value))),
            None => option_token(t@) is None,
        },
{
    if str_eq(t, "--city") {
        return Some((OptionName::City, None));
    }
    if str_eq(t, "--data") {
        return Some((OptionName::Data, None));
    }
    match strip_prefix(t, "--city=") {
        Some(v) => {
            return Some((OptionName::City, Some(v.to_owned())));
        },
        None => {},
    }
    match strip_prefix(t, "--data=") {
        Some(v) => Some((OptionName::Data, Some(v.to_owned()))),
        None => None,
    }
}

impl Cli {
    /// Reads a command line; `args[0]` is the program name.
    pub fn parse_from(args: Vec<&str>) -> (r: Result<Cli, CliError>)
        ensures
            match r {
                Ok(c) => parse_args(arg_views(args@)) == Ok::<CommandsModel, CliErrorView>(
                    c.cmd@,
                ),
                Err(e) => parse_args(arg_views(args@)) == Err::<CommandsModel, CliErrorView>(
                    e@,
                ),
            },
    {
        let ghost a = arg_views(args@);
        let n = args.len();
        if n < 2 {
            return Err(CliError::MissingCommand);
        }
        assert(a[1] == args@[1]@);
        if is_help_arg(args[1]) || str_eq(args[1], "help") {
            return Err(CliError::HelpRequested);
        }
        if str_eq(args[1], "configure") {
            if n < 3 {
                return Err(CliError::MissingProvider);
            }
            assert(a[2] == args@[2]@);
            if is_help_arg(args[2]) {
                return Err(CliError::HelpRequested);
            }
            if n > 3 {
                assert(a[3] == args@[3]@);
                return Err(CliError::UnexpectedArgument(args[3].to_owned()));
            }
            return Ok(Cli { cmd: Commands::Configure { provider: args[2].to_owned() } });
        }
        if !str_eq(args[1], "get") {
            return Err(CliError::UnknownCommand(args[1].to_owned()));
        }
        assert(a[1] == "get"@ && a[1] != "configure"@ && !is_help(a[1]) && a[1] != "help"@);
        let mut city: Option<String> = None;
        let mut data: Option<String> = None;
        let mut i: usize = 2;
        while i < n
            invariant
                n == args@.len(),
                a == arg_views(args@),
                a.len() == n,
                a[1] == "get"@ && a[1] != "configure"@ && !is_help(a[1]) && a[1] != "help"@,
                2 <= i <= n,
                parse_get_options(a.subrange(2, n as int), None, None) == parse_get_options(
                    a.subrange(i as int, n as int),
                    opt_view(city),
                    opt_view(data),
                ),
            decreases n - i,
        {
            let ghost rest = a.subrange(i as int, n as int);
            assert(rest[0] == args@[i as int]@);
            let tok = args[i];
            if is_help_arg(tok) {
                return Err(CliError::HelpRequested);
            }
            let (name, inline) = match read_option(tok) {
                Some(found) => found,
                None => {
                    return Err(CliError::UnexpectedArgument(tok.to_owned()));
                },
            };
            let value: String;
            let used: usize;
            match inline {
                Some(v) => {
                    value = v;
                    used = 1;
                },
                None => {
                    if i + 1 >= n {
                        return Err(CliError::MissingValue(option_name_text(name)));
                    }
                    assert(rest[1] == args@[i + 1]@);
                    value = args[i + 1].to_owned();
                    used = 2;
                },
            }
            assert(rest.subrange(used as int, rest.len() as int) =~= a.subrange(
                i + used,
                n as int,
            ));
            match name {
                OptionName::City => {
                    if city.is_some() {
                        return Err(CliError::DuplicateOption(option_name_text(name)));
                    }
                    city = Some(value);
                },
                OptionName::Data => {
                    if data.is_some() {
                        return Err(CliError::DuplicateOption(option_name_text(name)));
                    }
                    data = Some(value);
                },
            }
            i = i + used;
        }
        let data = match data {
            Some(d) => d,
            None => "now".to_owned(),
        };
        Ok(Cli { cmd: Commands::Get { city, data } })
    }
}

/// The provider names that `configure` accepts, as shown to a user.
pub const SUPPORTED_PROVIDERS_TEXT: &'static str = "weatherapi, openweather";

/// Whether `name` is a provider that can be configured.
pub fn is_supported_provider(name: &str) -> (r: bool)
    ensures
        r == (name@ == "weatherapi"@ || name@ == "openweather"@),
{
    str_eq(name, "weatherapi") || str_eq(name, "openweather")
}

/// What carrying out a command takes.
#[derive(Debug, Clone)]
pub enum Action {
    /// Persist this configuration.
    SaveConfig(AppConfig),
    /// Refuse this provider name, which is not supported.
    RejectProvider(String),
    /// Refuse `get` without a city.
    MissingCity,
    /// Load the configuration, resolve its provider and query it.
    Fetch { city: String, data: String },
}

/// The action that carries out `cmd`.
pub fn decide(cmd: Commands) -> (r: Action)
    ensures
        match cmd {
            Commands::Configure { provider } => if provider@ == "weatherapi"@ || provider@
                == "openweather"@ {
                r is SaveConfig && r->SaveConfig_0.provider@ == provider@
            } else {
                r is RejectProvider && r->RejectProvider_0@ == provider@
            },
            Commands::Get { city, data } => match city {
                Some(c) => r is Fetch && r->Fetch_city@ == c@ && r->Fetch_data@ == data@,
                None => r is MissingCity,
            },
        },
{
    match cmd {
        Commands::Configure { provider } => {
            if is_supported_provider(provider.as_str()) {
                Action::SaveConfig(AppConfig { provider })
            } else {
                Action::RejectProvider(provider)
            }
        },
        Commands::Get { city, data } => match city {
            Some(c) => Action::Fetch { city: c, data },
            None => Action::MissingCity,
        },
    }
}

} // verus!
