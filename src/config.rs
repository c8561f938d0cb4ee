//! The viewer's configuration, read from the command line.

use vstd::prelude::*;
use vstd::utf8::encode_utf8;

use crate::commands::CommandType;
use crate::number::{count_spec, parse_count};
use crate::options::{
    add_flag_option, add_value_option, all_named, free, free_args, new_options, opt_defined,
    opt_present, opt_str, option_table, option_values, parse_args, parsed, plain_options, usage,
    usage_of,
};

verus! {

/// The byte of a comma, the separator unless another is given.
pub const COMMA: u8 = 44;

/// Why a command line gives no configuration.
#[derive(Debug, Clone, Copy, PartialEq, Eq, Structural)]
pub enum ConfigError {
    /// The argument list lacks even the program name.
    MissingProgram,
    /// The option parser rejected the arguments.
    InvalidArguments,
    /// A row count or column index is not a decimal number that fits.
    InvalidNumber,
    /// The separator option is empty.
    EmptySeparator,
    /// A column was named for a file declared to have no header.
    NameWithoutHeader,
}

/// What the viewer was asked to do, and how.
#[derive(Debug)]
pub struct Config {
    pub program: String,
    pub input_file: Option<String>,
    pub command_type: CommandType,
    pub has_header: bool,
    pub pretty: bool,
    pub num_rows: Option<usize>,
    pub column_name: Option<String>,
    pub column_index: Option<usize>,
    pub separator: u8,
}

/// The occurrences of each option, by name, as the parser reports them.
pub type OptionValues = Map<Seq<char>, Seq<Option<Seq<char>>>>;

/// Whether the option `name` occurred.
pub open spec fn present(v: OptionValues, name: Seq<char>) -> bool {
    v.contains_key(name) && v[name].len() > 0
}

/// The value given with the first occurrence of `name`, if any.
pub open spec fn value_of(v: OptionValues, name: Seq<char>) -> Option<Seq<char>> {
    if present(v, name) {
        v[name][0]
    } else {
        None
    }
}

/// The view of an optional string.
pub open spec fn opt_text(s: Option<String>) -> Option<Seq<char>> {
    match s {
        Some(t) => Some(t@),
        None => None,
    }
}

/// The field separator: the first byte of the separator option, or a comma.
pub open spec fn separator_spec(v: OptionValues) -> Result<u8, ConfigError> {
    match value_of(v, "s"@) {
        None => Ok(COMMA),
        Some(t) => if encode_utf8(t).len() == 0 {
            Err(ConfigError::EmptySeparator)
        } else {
            Ok(encode_utf8(t)[0])
        },
    }
}

/// The request: help first, then head, tail, column by name, column by
/// index, and head where none of them is given.
pub open spec fn command_spec(v: OptionValues) -> CommandType {
    if present(v, "h"@) {
        CommandType::Help
    } else if present(v, "f"@) {
        CommandType::Head
    } else if present(v, "l"@) {
        CommandType::Tail
    } else if present(v, "n"@) {
        CommandType::ColumnName
    } else if present(v, "i"@) {
        CommandType::ColumnIndex
    } else {
        CommandType::Head
    }
}

/// The count given with option `name`, if any.
pub open spec fn count_of(v: OptionValues, name: Seq<char>) -> Result<Option<usize>, ConfigError> {
    match value_of(v, name) {
        None => Ok(None),
        Some(t) => match count_spec(t) {
            Some(n) => Ok(Some(n)),
            None => Err(ConfigError::InvalidNumber),
        },
    }
}

/// The row count of a head or tail request.
pub open spec fn rows_spec(v: OptionValues) -> Result<Option<usize>, ConfigError> {
    match command_spec(v) {
        CommandType::Head => count_of(v, "f"@),
        CommandType::Tail => count_of(v, "l"@),
        _ => Ok(None),
    }
}

/// The column index of a column-by-index request.
pub open spec fn index_spec(v: OptionValues) -> Result<Option<usize>, ConfigError> {
    match command_spec(v) {
        CommandType::ColumnIndex => count_of(v, "i"@),
        _ => Ok(None),
    }
}

/// The first thing wrong with a parsed command line, if anything is.
pub open spec fn config_error(v: OptionValues) -> Option<ConfigError> {
    if separator_spec(v) is Err {
        Some(separator_spec(v)->Err_0)
    } else if rows_spec(v) is Err {
        Some(rows_spec(v)->Err_0)
    } else if index_spec(v) is Err {
        Some(index_spec(v)->Err_0)
    } else if command_spec(v) == CommandType::ColumnName && present(v, "no-header"@) {
        Some(ConfigError::NameWithoutHeader)
    } else {
        None
    }
}

/// Whether `r` is the configuration that the program name, the parsed options
/// `v` and the free arguments `f` describe.
pub open spec fn config_result(r: Result<Config, ConfigError>, program: Seq<char>, v: OptionValues, f: Seq<Seq<char>>) -> bool {
    match r {
        Err(e) => config_error(v) == Some(e),
        Ok(c) => {
            &&& config_error(v) is None
            &&& c.program@ == program
            &&& opt_text(c.input_file) == if f.len() > 0 {
                Some(f[0])
            } else {
                None
            }
            &&& c.has_header == !present(v, "no-header"@)
            &&& c.pretty == present(v, "pretty"@)
            &&& c.separator == separator_spec(v)->Ok_0
            &&& c.command_type == command_spec(v)
            &&& c.num_rows == rows_spec(v)->Ok_0
            &&& c.column_index == index_spec(v)->Ok_0
            &&& opt_text(c.column_name) == if command_spec(v) == CommandType::ColumnName {
                value_of(v, "n"@)
            } else {
                None
            }
        },
    }
}

/// The options the viewer understands: short and long name, description,
/// value hint, and whether a value follows.
pub open spec fn options_spec() -> Seq<(Seq<char>, Seq<char>, Seq<char>, Seq<char>, bool)> {
    seq![
        ("f"@, "first"@, "show the N first lines"@, "10"@, true),
        ("l"@, "last"@, "show the N last lines"@, "10"@, true),
        ("n"@, "column-name"@, "show the column by name"@, "column_A"@, true),
        ("s"@, "sep"@, "separator"@, "','"@, true),
        ("i"@, "column-index"@, "show the column by index"@, "4"@, true),
        (""@, "pretty"@, "pretty print dataframe"@, ""@, false),
        (""@, "no-header"@, "the file does not have a header row"@, ""@, false),
        ("h"@, "help"@, "print this help menu"@, ""@, false),
    ]
}

/// Whether option `name` occurred.
fn is_present(m: &getopts::Matches, name: &str) -> (r: bool)
    ensures
        r == present(option_values(*m), name@),
{
    opt_defined(m, name) && opt_present(m, name)
}

/// The value of option `name`'s first occurrence, if any.
fn value(m: &getopts::Matches, name: &str) -> (r: Option<String>)
    ensures
        opt_text(r) == value_of(option_values(*m), name@),
{
    if is_present(m, name) {
        opt_str(m, name)
    } else {
        None
    }
}

/// The count given with option `name`, if any.
fn count_value(m: &getopts::Matches, name: &str) -> (r: Result<Option<usize>, ConfigError>)
    ensures
        r == count_of(option_values(*m), name@),
{
    match value(m, name) {
        None => Ok(None),
        Some(t) => match parse_count(t.as_str()) {
            Some(n) => Ok(Some(n)),
            None => Err(ConfigError::InvalidNumber),
        },
    }
}

impl Config {
    /// The table of options the viewer understands.
    pub fn get_opts() -> (r: getopts::Options)
        ensures
            option_table(r) == options_spec(),
            all_named(option_table(r)),
            plain_options(r),
    {
        proof {
            reveal_strlit("f");
            reveal_strlit("first");
            reveal_strlit("l");
            reveal_strlit("last");
            reveal_strlit("n");
            reveal_strlit("column-name");
            reveal_strlit("s");
            reveal_strlit("sep");
            reveal_strlit("i");
            reveal_strlit("column-index");
            reveal_strlit("");
            reveal_strlit("pretty");
            reveal_strlit("no-header");
            reveal_strlit("h");
            reveal_strlit("help");
        }
        let mut opts = new_options();
        add_value_option(&mut opts, "f", "first", "show the N first lines", "10");
        add_value_option(&mut opts, "l", "last", "show the N last lines", "10");
        add_value_option(&mut opts, "n", "column-name", "show the column by name", "column_A");
        add_value_option(&mut opts, "s", "sep", "separator", "','");
        add_value_option(&mut opts, "i", "column-index", "show the column by index", "4");
        add_flag_option(&mut opts, "", "pretty", "pretty print dataframe");
        add_flag_option(&mut opts, "", "no-header", "the file does not have a header row");
        add_flag_option(&mut opts, "h", "help", "print this help menu");
        assert(""@ == Seq::<char>::empty());
        assert(option_table(opts) =~= options_spec());
        assert(all_named(option_table(opts)));
        opts
    }

    /// The configuration that a parse result describes for `program`.
    pub fn from_matches(program: String, m: &getopts::Matches) -> (r: Result<Config, ConfigError>)
        ensures
            config_result(r, program@, option_values(*m), free_args(*m)),
    {
        let ghost v = option_values(*m);
        let separator: u8 = match value(m, "s") {
            None => COMMA,
            Some(t) => {
                let bytes = t.as_str().as_bytes();
                if bytes.len() == 0 {
                    return Err(ConfigError::EmptySeparator);
                }
                bytes[0]
            },
        };
        let has_header = !is_present(m, "no-header");
        let pretty = is_present(m, "pretty");
        let mut command_type = CommandType::Head;
        let mut num_rows: Option<usize> = None;
        let mut column_name: Option<String> = None;
        let mut column_index: Option<usize> = None;
        if is_present(m, "h") {
            command_type = CommandType::Help;
        } else if is_present(m, "f") {
            command_type = CommandType::Head;
            num_rows = count_value(m, "f")?;
        } else if is_present(m, "l") {
            command_type = CommandType::Tail;
            num_rows = count_value(m, "l")?;
        } else if is_present(m, "n") {
            if !has_header {
                return Err(ConfigError::NameWithoutHeader);
            }
            command_type = CommandType::ColumnName;
            column_name = value(m, "n");
        } else if is_present(m, "i") {
            command_type = CommandType::ColumnIndex;
            column_index = count_value(m, "i")?;
        } else {
            num_rows = count_value(m, "f")?;
        }
        let rest = free(m);
        let input_file = if rest.len() > 0 {
            Some(rest[0].clone())
        } else {
            None
        };
        Ok(Config {
            program,
            input_file,
            command_type,
            has_header,
            pretty,
            num_rows,
            column_name,
            column_index,
            separator,
        })
    }

    /// Reads the configuration from a command line whose first argument is
    /// the program name.
    pub fn new(args: &[String]) -> (r: Result<Config, ConfigError>)
        ensures
            args@.len() == 0 ==> r == Err::<Config, ConfigError>(ConfigError::MissingProgram),
            args@.len() > 0 ==> match parsed(options_spec(), args.deep_view().drop_first()) {
                None => r == Err::<Config, ConfigError>(ConfigError::InvalidArguments),
                Some((v, f)) => config_result(r, args@[0]@, v, f),
            },
    {
        if args.len() == 0 {
            return Err(ConfigError::MissingProgram);
        }
        let program = args[0].clone();
        let (_, rest) = args.split_at(1);
        assert(rest.deep_view() =~= args.deep_view().drop_first());
        let opts = Config::get_opts();
        match parse_args(&opts, rest) {
            Err(_) => Err(ConfigError::InvalidArguments),
            Ok(m) => Config::from_matches(program, &m),
        }
    }

    /// The help text for this program: a line naming the program, then the
    /// options.
    pub fn usage_text(&self) -> (r: String)
        ensures
            r@ == usage_of(options_spec(), "Usage: "@ + self.program@ + " [options] FILE"@),
            ({
                let brief = "Usage: "@ + self.program@ + " [options] FILE"@;
                brief.len() <= r@.len() && r@.take(brief.len() as int) == brief
            }),
    {
        let brief = String::from_str("Usage: ").concat(self.program.as_str()).concat(" [options] FILE");
        usage(&Config::get_opts(), brief.as_str())
    }
}

} // verus!
