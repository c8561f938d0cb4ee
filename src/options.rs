//! The command-line option parser, getopts, as the configuration sees it.

use vstd::prelude::*;

verus! {

#[verifier::external_type_specification]
#[verifier::external_body]
pub struct ExOptions(getopts::Options);

#[verifier::external_type_specification]
#[verifier::external_body]
pub struct ExMatches(getopts::Matches);

#[verifier::external_type_specification]
#[verifier::external_body]
pub struct ExFail(getopts::Fail);

/// The options of a table, in order: for each its short name, long name,
/// description, value hint, and whether it takes a value.
pub uninterp spec fn option_table(o: getopts::Options) -> Seq<(Seq<char>, Seq<char>, Seq<char>, Seq<char>, bool)>;

/// Whether a table parses in getopts' default way: every option optional
/// (neither required nor repeatable), free arguments allowed among options,
/// and long options written with two dashes.
pub uninterp spec fn plain_options(o: getopts::Options) -> bool;

/// What parsing `args` against a plain table with these options gives: the
/// occurrences of each option by name and the free arguments, or `None`
/// where the arguments are rejected.
pub uninterp spec fn parsed(table: Seq<(Seq<char>, Seq<char>, Seq<char>, Seq<char>, bool)>, args: Seq<Seq<char>>) -> Option<
    (Map<Seq<char>, Seq<Option<Seq<char>>>>, Seq<Seq<char>>),
>;

/// The help text that a plain table with these options gives after `brief`.
pub uninterp spec fn usage_of(table: Seq<(Seq<char>, Seq<char>, Seq<char>, Seq<char>, bool)>, brief: Seq<char>) -> Seq<char>;

/// For each name a parse result answers to, the occurrences of that option
/// in order: each with its value, or `None` where it was given without one.
pub uninterp spec fn option_values(m: getopts::Matches) -> Map<Seq<char>, Seq<Option<Seq<char>>>>;

/// The free arguments of a parse result, in order.
pub uninterp spec fn free_args(m: getopts::Matches) -> Seq<Seq<char>>;

/// Names getopts accepts for an option: a one-byte short name or none, a
/// long name of two or more characters or none, and not both absent.
pub open spec fn valid_names(short: Seq<char>, long: Seq<char>) -> bool {
    &&& short.len() == 0 || (short.len() == 1 && short[0] <= '\u{7f}')
    &&& long.len() == 0 || long.len() >= 2
    &&& short.len() + long.len() > 0
}

/// Every option of a table has a name.
pub open spec fn all_named(table: Seq<(Seq<char>, Seq<char>, Seq<char>, Seq<char>, bool)>) -> bool {
    forall|i: int| 0 <= i < table.len() ==> table[i].0.len() + table[i].1.len() > 0
}

/// Relies on getopts::Options::new: a table without options, with the
/// default parsing style and not in long-only mode.
#[verifier::external_body]
pub(crate) fn new_options() -> (r: getopts::Options)
    ensures
        option_table(r) == Seq::<(Seq<char>, Seq<char>, Seq<char>, Seq<char>, bool)>::empty(),
        plain_options(r),
{
    getopts::Options::new()
}

/// Relies on getopts::Options::optopt: appends an optional option that
/// takes a value; it panics on names that `valid_names` rules out.
#[verifier::external_body]
pub(crate) fn add_value_option(o: &mut getopts::Options, short: &str, long: &str, desc: &str, hint: &str)
    requires
        valid_names(short@, long@),
    ensures
        option_table(*final(o)) == option_table(*old(o)).push((short@, long@, desc@, hint@, true)),
        plain_options(*final(o)) == plain_options(*old(o)),
{
    o.optopt(short, long, desc, hint);
}

/// Relies on getopts::Options::optflag: appends an optional option without
/// a value (its hint is empty); it panics on names that `valid_names` rules
/// out.
#[verifier::external_body]
pub(crate) fn add_flag_option(o: &mut getopts::Options, short: &str, long: &str, desc: &str)
    requires
        valid_names(short@, long@),
    ensures
        option_table(*final(o)) == option_table(*old(o)).push((short@, long@, desc@, Seq::<char>::empty(), false)),
        plain_options(*final(o)) == plain_options(*old(o)),
{
    o.optflag(short, long, desc);
}

/// Relies on getopts::Options::parse: matches `args` against the table, the
/// outcome depending on the table and the arguments alone; it panics only
/// on an option that has neither name.
#[verifier::external_body]
pub(crate) fn parse_args(o: &getopts::Options, args: &[String]) -> (r: Result<getopts::Matches, getopts::Fail>)
    requires
        all_named(option_table(*o)),
        plain_options(*o),
    ensures
        match r {
            Ok(m) => parsed(option_table(*o), args.deep_view()) == Some((option_values(m), free_args(m))),
            Err(_) => parsed(option_table(*o), args.deep_view()) is None,
        },
{
    o.parse(args)
}

/// Relies on getopts::Matches::opt_defined: whether the parse result answers
/// to `name`.
#[verifier::external_body]
pub(crate) fn opt_defined(m: &getopts::Matches, name: &str) -> (r: bool)
    ensures
        r == option_values(*m).contains_key(name@),
{
    m.opt_defined(name)
}

/// Relies on getopts::Matches::opt_present: whether the option occurred; it
/// panics on a name the result does not answer to.
#[verifier::external_body]
pub(crate) fn opt_present(m: &getopts::Matches, name: &str) -> (r: bool)
    requires
        option_values(*m).contains_key(name@),
    ensures
        r == (option_values(*m)[name@].len() > 0),
{
    m.opt_present(name)
}

/// Relies on getopts::Matches::opt_str: the value of the option's first
/// occurrence; it panics on a name the result does not answer to.
#[verifier::external_body]
pub(crate) fn opt_str(m: &getopts::Matches, name: &str) -> (r: Option<String>)
    requires
        option_values(*m).contains_key(name@),
    ensures
        match r {
            Some(s) => option_values(*m)[name@].len() > 0 && option_values(*m)[name@][0] == Some(s@),
            None => option_values(*m)[name@].len() == 0 || option_values(*m)[name@][0] is None,
        },
{
    m.opt_str(name)
}

/// Relies on getopts::Matches::free: the arguments that are no option.
#[verifier::external_body]
pub(crate) fn free(m: &getopts::Matches) -> (r: Vec<String>)
    ensures
        r.deep_view() == free_args(*m),
{
    m.free.clone()
}

/// Relies on getopts::Options::usage: the help text, which depends on the
/// table and `brief` alone and begins with `brief`.
#[verifier::external_body]
pub(crate) fn usage(o: &getopts::Options, brief: &str) -> (r: String)
    requires
        plain_options(*o),
    ensures
        r@ == usage_of(option_table(*o), brief@),
        brief@.len() <= r@.len(),
        r@.take(brief@.len() as int) == brief@,
{
    o.usage(brief)
}

} // verus!
