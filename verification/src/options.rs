//! The `getopts` crate as the verifier sees it.
//!
//! Nothing in this file is proved. Each item states what the crate's source
//! shows of one of its types or functions; the rest of the library is proved
//! from these statements.

use vstd::prelude::*;
use vstd::string::*;

verus! {

/// `getopts::Options`: the option groups that a parser accepts. Its fields
/// are hidden; [`declared_groups`] and [`is_plain`] stand for them.
#[verifier::external_type_specification]
#[verifier::external_body]
pub struct ExOptions(getopts::Options);

/// `getopts::Matches`: what a successful parse found. Its fields are hidden;
/// [`occurrences`] stands for them.
#[verifier::external_type_specification]
#[verifier::external_body]
pub struct ExMatches(getopts::Matches);

/// `getopts::Fail`: why a parse failed. Nothing is said of it.
#[verifier::external_type_specification]
#[verifier::external_body]
pub struct ExFail(getopts::Fail);

/// One option group: its two names (an empty name is no name), its two
/// texts for the usage message, whether it takes a value and whether it has
/// to occur.
pub struct OptionGroup {
    pub short: Seq<char>,
    pub long: Seq<char>,
    pub description: Seq<char>,
    pub hint: Seq<char>,
    pub takes_value: bool,
    pub required: bool,
}

/// For each name that a parse knows, short or long, the occurrences of the
/// option of that name in the order of the command line: the value of each,
/// or `None` for an occurrence without a value.
pub type Occurrences = Map<Seq<char>, Seq<Option<Seq<char>>>>;

/// The option groups that `options` holds, in the order in which they were
/// added.
pub uninterp spec fn declared_groups(options: getopts::Options) -> Seq<OptionGroup>;

/// Whether `options` is as `Options::new` made it but for groups that
/// `reqopt`, `optopt` and `optflag` added: flags and free arguments mix
/// freely, long options take two dashes, and no group takes an optional
/// value or occurs more than once.
pub uninterp spec fn is_plain(options: getopts::Options) -> bool;

/// What `matches` holds.
pub uninterp spec fn occurrences(matches: getopts::Matches) -> Occurrences;

/// What `Options::parse` finds when plain options that hold `groups` are
/// given the arguments `args`, or `None` where it fails.
pub uninterp spec fn parse_outcome(groups: Seq<OptionGroup>, args: Seq<Seq<char>>) -> Option<
    Occurrences,
>;

/// The message that `Options::usage` renders for plain options that hold
/// `groups` when it is given the first line `brief`.
pub uninterp spec fn usage_rendering(groups: Seq<OptionGroup>, brief: Seq<char>) -> Seq<char>;

/// Names with which no method that adds a group panics: ASCII text, the
/// short name of at most one character, the long name of any length but
/// one.
pub open spec fn are_valid_names(short: &str, long: &str) -> bool {
    &&& is_ascii(short)
    &&& is_ascii(long)
    &&& short@.len() <= 1
    &&& long@.len() != 1
}

/// Whether the group has a name at all.
pub open spec fn is_named(group: OptionGroup) -> bool {
    group.short.len() > 0 || group.long.len() > 0
}

/// Whether `found` knows the group under each of its names.
pub open spec fn defines(found: Occurrences, group: OptionGroup) -> bool {
    &&& group.short.len() > 0 ==> found.dom().contains(group.short)
    &&& group.long.len() > 0 ==> found.dom().contains(group.long)
}

/// The value of the first occurrence, if there is an occurrence and it has
/// a value.
pub open spec fn first_value(values: Seq<Option<Seq<char>>>) -> Option<Seq<char>> {
    if values.len() > 0 {
        values[0]
    } else {
        None
    }
}

/// `Options::new` makes plain options without any group.
pub assume_specification[ getopts::Options::new ]() -> (options: getopts::Options)
    ensures
        declared_groups(options) == Seq::<OptionGroup>::empty(),
        is_plain(options),
;

/// `Options::reqopt` appends a group that takes a value and has to occur.
/// It leaves everything else as it was.
#[verifier::external_body]
pub(crate) fn add_required(
    options: &mut getopts::Options,
    short: &str,
    long: &str,
    description: &str,
    hint: &str,
)
    requires
        are_valid_names(short, long),
    ensures
        declared_groups(*final(options)) == declared_groups(*old(options)).push(
            OptionGroup {
                short: short@,
                long: long@,
                description: description@,
                hint: hint@,
                takes_value: true,
                required: true,
            },
        ),
        is_plain(*final(options)) == is_plain(*old(options)),
{
    options.reqopt(short, long, description, hint);
}

/// `Options::optopt` appends a group that takes a value and may be left
/// out. It leaves everything else as it was.
#[verifier::external_body]
pub(crate) fn add_optional(
    options: &mut getopts::Options,
    short: &str,
    long: &str,
    description: &str,
    hint: &str,
)
    requires
        are_valid_names(short, long),
    ensures
        declared_groups(*final(options)) == declared_groups(*old(options)).push(
            OptionGroup {
                short: short@,
                long: long@,
                description: description@,
                hint: hint@,
                takes_value: true,
                required: false,
            },
        ),
        is_plain(*final(options)) == is_plain(*old(options)),
{
    options.optopt(short, long, description, hint);
}

/// `Options::optflag` appends a group that takes no value, has no hint and
/// may be left out. It leaves everything else as it was.
#[verifier::external_body]
pub(crate) fn add_flag(options: &mut getopts::Options, short: &str, long: &str, description: &str)
    requires
        are_valid_names(short, long),
    ensures
        declared_groups(*final(options)) == declared_groups(*old(options)).push(
            OptionGroup {
                short: short@,
                long: long@,
                description: description@,
                hint: Seq::empty(),
                takes_value: false,
                required: false,
            },
        ),
        is_plain(*final(options)) == is_plain(*old(options)),
{
    options.optflag(short, long, description);
}

/// `Options::parse` panics on a group without a name. What it returns
/// depends on the groups and the arguments alone; matches that it returns
/// know every group under each of its names.
#[verifier::external_body]
pub(crate) fn parse(options: &getopts::Options, args: &Vec<String>) -> (r: Result<
    getopts::Matches,
    getopts::Fail,
>)
    requires
        is_plain(*options),
        forall|i: int|
            0 <= i < declared_groups(*options).len() ==> is_named(#[trigger] declared_groups(*options)[i]),
    ensures
        match r {
            Ok(matches) => {
                &&& parse_outcome(declared_groups(*options), args.deep_view()) == Some(
                    occurrences(matches),
                )
                &&& forall|i: int|
                    0 <= i < declared_groups(*options).len() ==> defines(
                        occurrences(matches),
                        #[trigger] declared_groups(*options)[i],
                    )
            },
            Err(_) => parse_outcome(declared_groups(*options), args.deep_view()) is None,
        },
{
    options.parse(args)
}

/// `Matches::opt_present` panics on a name that the matches do not know.
/// It tells whether the option of that name occurred.
pub assume_specification[ getopts::Matches::opt_present ](
    matches: &getopts::Matches,
    name: &str,
) -> (present: bool)
    requires
        occurrences(*matches).dom().contains(name@),
    ensures
        present == (occurrences(*matches)[name@].len() > 0),
;

/// `Matches::opt_str` panics on a name that the matches do not know. It
/// returns the value of the first occurrence of the option of that name.
pub assume_specification[ getopts::Matches::opt_str ](matches: &getopts::Matches, name: &str) -> (value:
    Option<String>)
    requires
        occurrences(*matches).dom().contains(name@),
    ensures
        value.deep_view() == first_value(occurrences(*matches)[name@]),
;

/// `Options::usage` renders the usage message. What it returns depends on
/// the groups and the first line alone.
pub assume_specification[ getopts::Options::usage ](options: &getopts::Options, brief: &str) -> (text:
    String)
    requires
        is_plain(*options),
    ensures
        text@ == usage_rendering(declared_groups(*options), brief@),
;

} // verus!
