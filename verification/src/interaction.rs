use vstd::prelude::*;

use crate::decimal::{
    decimal, digits_value, i64_to_decimal, is_digit, law_decimal_reads_back, signed_decimal,
    u64_to_decimal,
};

verus! {

/// A JSON number as Discord sends it in an option value.
#[derive(Debug, Clone, PartialEq)]
pub enum JsonNumber {
    /// A non-negative integer.
    PosInt(u64),
    /// A negative integer.
    NegInt(i64),
    /// A number with a fraction or an exponent, held as the text that
    /// `serde_json` prints for it.
    Fractional(String),
}

/// The value of a command option.
#[derive(Debug, Clone, PartialEq)]
pub enum OptionValue {
    /// A string.
    String(String),
    /// A boolean.
    Bool(bool),
    /// A number.
    Number(JsonNumber),
    /// `null`, an array or an object: nothing the bot reads.
    Other,
}

/// One option of an invoked command.
#[derive(Debug, Clone, PartialEq)]
pub struct CommandOption {
    /// The option's name.
    pub name: String,
    /// The option's value, if it has one.
    pub value: Option<OptionValue>,
}

/// The command part of an interaction: its name and options.
#[derive(Debug, Clone, PartialEq)]
pub struct CommandData {
    /// The command's name.
    pub name: String,
    /// The options given with it, in order.
    pub options: Vec<CommandOption>,
}

/// The first option named `name`, if any.
pub open spec fn option_named(opts: Seq<CommandOption>, name: Seq<char>) -> Option<CommandOption>
    decreases opts.len(),
{
    if opts.len() == 0 {
        None
    } else if opts[0].name@ == name {
        Some(opts[0])
    } else {
        option_named(opts.drop_first(), name)
    }
}

/// The option a lookup by name finds is the first one with that name, and
/// a lookup finds nothing when no option has the name.
pub proof fn law_option_named_is_first(opts: Seq<CommandOption>, name: Seq<char>, i: int)
    ensures
        0 <= i < opts.len() && opts[i].name@ == name && (forall|k: int|
            0 <= k < i ==> #[trigger] opts[k].name@ != name) ==> option_named(opts, name) == Some(
            opts[i],
        ),
        (forall|k: int| 0 <= k < opts.len() ==> #[trigger] opts[k].name@ != name) ==> option_named(
            opts,
            name,
        ) is None,
    decreases opts.len(),
{
    if opts.len() > 0 {
        let r = opts.drop_first();
        law_option_named_is_first(r, name, i - 1);
        if 0 < i < opts.len() && opts[i].name@ == name && (forall|k: int|
            0 <= k < i ==> #[trigger] opts[k].name@ != name) {
            assert(opts[0].name@ != name);
            assert(r[i - 1] == opts[i]);
            assert forall|k: int| 0 <= k < i - 1 implies #[trigger] r[k].name@ != name by {
                assert(r[k] == opts[k + 1]);
            }
        }
        if forall|k: int| 0 <= k < opts.len() ==> #[trigger] opts[k].name@ != name {
            assert(opts[0].name@ != name);
            assert forall|k: int| 0 <= k < r.len() implies #[trigger] r[k].name@ != name by {
                assert(r[k] == opts[k + 1]);
            }
        }
    }
}

/// The index of the first option named `name`, if any.
pub fn find_option(opts: &Vec<CommandOption>, name: &str) -> (r: Option<usize>)
    ensures
        match r {
            Some(i) => i < opts@.len() && opts@[i as int].name@ == name@ && option_named(opts@, name@)
                == Some(opts@[i as int]),
            None => option_named(opts@, name@) is None,
        },
{
    let target = String::from_str(name);
    let mut i: usize = 0;
    assert(opts@.skip(0) =~= opts@);
    while i < opts.len()
        invariant
            0 <= i <= opts@.len(),
            target@ == name@,
            option_named(opts@, name@) == option_named(opts@.skip(i as int), name@),
        decreases opts@.len() - i,
    {
        assert(opts@.skip(i as int).drop_first() =~= opts@.skip(i + 1));
        if opts[i].name == target {
            return Some(i);
        }
        i = i + 1;
    }
    None
}

/// The text `serde_json` prints for a number.
pub open spec fn number_text(n: JsonNumber) -> Seq<char> {
    match n {
        JsonNumber::PosInt(v) => decimal(v as nat),
        JsonNumber::NegInt(v) => signed_decimal(v as int),
        JsonNumber::Fractional(t) => t@,
    }
}

/// An integer option value is shown as its digits, after a `-` when it is
/// negative: the digits' value is the number's magnitude.
pub proof fn law_integer_text(n: JsonNumber)
    ensures
        n matches JsonNumber::PosInt(v) ==> exists|d: Seq<char>|
            #![trigger digits_value(d)]
            d.len() >= 1 && (forall|i: int| 0 <= i < d.len() ==> is_digit(#[trigger] d[i]))
                && digits_value(d) == v && number_text(n) == d,
        n matches JsonNumber::NegInt(v) ==> exists|d: Seq<char>|
            #![trigger digits_value(d)]
            d.len() >= 1 && (forall|i: int| 0 <= i < d.len() ==> is_digit(#[trigger] d[i]))
                && (v < 0 ==> digits_value(d) == -v && number_text(n) == seq!['-'] + d)
                && (v >= 0 ==> digits_value(d) == v && number_text(n) == d),
{
    match n {
        JsonNumber::PosInt(v) => {
            law_decimal_reads_back(v as nat);
            assert(digits_value(decimal(v as nat)) == v);
        },
        JsonNumber::NegInt(v) => {
            if v < 0 {
                law_decimal_reads_back((-v) as nat);
                assert(digits_value(decimal((-v) as nat)) == -v);
            } else {
                law_decimal_reads_back(v as nat);
                assert(digits_value(decimal(v as nat)) == v);
            }
        },
        JsonNumber::Fractional(_) => {},
    }
}

/// How a command log shows an option value: a string as it is, a boolean as
/// `true` or `false`, a number as printed, anything else as nothing.
pub open spec fn value_text(v: OptionValue) -> Seq<char> {
    match v {
        OptionValue::String(s) => s@,
        OptionValue::Bool(b) => if b {
            "true"@
        } else {
            "false"@
        },
        OptionValue::Number(n) => number_text(n),
        OptionValue::Other => Seq::empty(),
    }
}

/// Renders an option value for a command log.
pub fn render_value(v: &OptionValue) -> (s: String)
    ensures
        s@ == value_text(*v),
{
    match v {
        OptionValue::String(s) => s.clone(),
        OptionValue::Bool(b) => if *b {
            String::from_str("true")
        } else {
            String::from_str("false")
        },
        OptionValue::Number(n) => match n {
            JsonNumber::PosInt(u) => u64_to_decimal(*u),
            JsonNumber::NegInt(i) => i64_to_decimal(*i),
            JsonNumber::Fractional(t) => t.clone(),
        },
        OptionValue::Other => String::new(),
    }
}

/// The words a command log shows for one option: `name:` and the value when
/// it has one, else the bare name.
pub open spec fn option_words(op: CommandOption) -> Seq<Seq<char>> {
    match op.value {
        Some(v) => seq![op.name@ + ":"@, value_text(v)],
        None => seq![op.name@],
    }
}

/// The words for a list of options, in order.
pub open spec fn options_words(ops: Seq<CommandOption>) -> Seq<Seq<char>>
    decreases ops.len(),
{
    if ops.len() == 0 {
        Seq::empty()
    } else {
        options_words(ops.drop_last()) + option_words(ops.last())
    }
}

/// Words joined by single spaces.
pub open spec fn space_joined(words: Seq<Seq<char>>) -> Seq<char>
    decreases words.len(),
{
    if words.len() == 0 {
        Seq::empty()
    } else if words.len() == 1 {
        words[0]
    } else {
        space_joined(words.drop_last()) + " "@ + words.last()
    }
}

/// The views of a list of strings.
pub open spec fn views(v: Seq<String>) -> Seq<Seq<char>> {
    v.map_values(|s: String| s@)
}

/// Joins strings with single spaces.
pub fn join_spaced(parts: &Vec<String>) -> (s: String)
    ensures
        s@ == space_joined(views(parts@)),
{
    let mut s = String::new();
    let mut i: usize = 0;
    while i < parts.len()
        invariant
            0 <= i <= parts@.len(),
            s@ == space_joined(views(parts@).take(i as int)),
        decreases parts@.len() - i,
    {
        assert(views(parts@).take(i + 1).drop_last() =~= views(parts@).take(i as int));
        if i == 0 {
            s = parts[i].clone();
            assert(views(parts@).take(1) =~= seq![parts@[0]@]);
        } else {
            s.append(" ");
            s.append(parts[i].as_str());
        }
        i = i + 1;
    }
    assert(views(parts@).take(parts@.len() as int) =~= views(parts@));
    s
}

/// The option part of a logged command: each option's words, joined by
/// spaces. Options nested inside an option are not shown.
pub fn options_to_string(ops: &Vec<CommandOption>) -> (s: String)
    ensures
        s@ == space_joined(options_words(ops@)),
{
    let mut chunks: Vec<String> = Vec::new();
    let mut i: usize = 0;
    while i < ops.len()
        invariant
            0 <= i <= ops@.len(),
            views(chunks@) == options_words(ops@.take(i as int)),
        decreases ops@.len() - i,
    {
        let op = &ops[i];
        assert(ops@.take(i + 1).drop_last() =~= ops@.take(i as int));
        assert(ops@.take(i + 1).last() == ops@[i as int]);
        let ghost before = chunks@;
        match &op.value {
            Some(v) => {
                let mut head = op.name.clone();
                head.append(":");
                chunks.push(head);
                chunks.push(render_value(v));
                assert(views(chunks@) =~= views(before) + option_words(*op));
            },
            None => {
                chunks.push(op.name.clone());
                assert(views(chunks@) =~= views(before) + option_words(*op));
            },
        }
        i = i + 1;
    }
    assert(ops@.take(ops@.len() as int) =~= ops@);
    join_spaced(&chunks)
}

/// How a command log shows the whole invocation: `/`, the command's name,
/// and, when there are options, a space and their words.
pub open spec fn invocation_text(data: Option<CommandData>) -> Seq<char> {
    match data {
        None => "/"@,
        Some(d) => if d.options@.len() == 0 {
            "/"@ + d.name@
        } else {
            "/"@ + d.name@ + " "@ + space_joined(options_words(d.options@))
        },
    }
}

/// Renders a command for the command log, as it would be typed.
pub fn command_to_string(d: &CommandData) -> (s: String)
    ensures
        s@ == invocation_text(Some(*d)),
{
    let mut s = String::from_str("/");
    s.append(d.name.as_str());
    if d.options.len() != 0 {
        let rest = options_to_string(&d.options);
        s.append(" ");
        s.append(rest.as_str());
    }
    s
}

/// Renders an invocation for the command log: `/` alone when there is no
/// command data.
pub fn interaction_to_string(data: &Option<CommandData>) -> (s: String)
    ensures
        s@ == invocation_text(*data),
{
    match data {
        None => String::from_str("/"),
        Some(d) => command_to_string(d),
    }
}

} // verus!
