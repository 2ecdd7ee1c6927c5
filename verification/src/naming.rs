//! The two renaming directions and the substitution each one applies.

use vstd::prelude::*;
use crate::error::RenameError;
use crate::text::{push_char, same_text};

verus! {

/// The argument that selects `Format::KebabToSnake`.
pub const KEBAB_TO_SNAKE: &'static str = "kebab-to-snake";

/// The argument that selects `Format::SnakeToKebab`.
pub const SNAKE_TO_KEBAB: &'static str = "snake-to-kebab";

/// A renaming direction.
#[derive(Debug, PartialEq, Eq, Clone, Copy, Structural)]
pub enum Format {
    /// Every `-` becomes `_`.
    KebabToSnake,
    /// Every `_` becomes `-`.
    SnakeToKebab,
}

impl Format {
    /// The character that this direction replaces.
    pub open spec fn source(self) -> char {
        match self {
            Format::KebabToSnake => '-',
            Format::SnakeToKebab => '_',
        }
    }

    /// The character that this direction writes in its place.
    pub open spec fn target(self) -> char {
        match self {
            Format::KebabToSnake => '_',
            Format::SnakeToKebab => '-',
        }
    }

    /// The direction that undoes the characters this one writes.
    pub open spec fn opposite(self) -> Format {
        match self {
            Format::KebabToSnake => Format::SnakeToKebab,
            Format::SnakeToKebab => Format::KebabToSnake,
        }
    }
}

/// What one character becomes under `rule`.
pub open spec fn convert_char(c: char, rule: Format) -> char {
    if c == rule.source() {
        rule.target()
    } else {
        c
    }
}

/// What a name becomes under `rule`: each character converted in place.
pub open spec fn converted(name: Seq<char>, rule: Format) -> Seq<char> {
    name.map_values(|c: char| convert_char(c, rule))
}

/// The direction that an argument selects, if it is one of the two accepted.
pub open spec fn parsed_format(arg: Seq<char>) -> Option<Format> {
    if arg == KEBAB_TO_SNAKE@ {
        Some(Format::KebabToSnake)
    } else if arg == SNAKE_TO_KEBAB@ {
        Some(Format::SnakeToKebab)
    } else {
        None
    }
}

/// Reads a renaming direction from its command-line spelling. Anything but
/// the two accepted spellings is an invalid argument.
pub fn format_arg_to_enum(format: &str) -> (parsed: Result<Format, RenameError>)
    ensures
        match parsed_format(format@) {
            Some(rule) => parsed == Ok::<Format, RenameError>(rule),
            None => parsed == Err::<Format, RenameError>(RenameError::InvalidArgument),
        },
{
    if same_text(format, KEBAB_TO_SNAKE) {
        Ok(Format::KebabToSnake)
    } else if same_text(format, SNAKE_TO_KEBAB) {
        Ok(Format::SnakeToKebab)
    } else {
        Err(RenameError::InvalidArgument)
    }
}

/// The name that `format` gives to a repository called `name`.
pub fn format_name(name: &str, format: &Format) -> (renamed: String)
    ensures
        renamed@ == converted(name@, *format),
        renamed@.len() == name@.len(),
        forall|i: int|
            0 <= i < name@.len() ==> renamed@[i] == convert_char(#[trigger] name@[i], *format),
{
    let (from, to) = match format {
        Format::KebabToSnake => ('-', '_'),
        Format::SnakeToKebab => ('_', '-'),
    };
    let mut renamed = String::new();
    for c in it: name.chars()
        invariant
            it.seq() == name@,
            from == format.source(),
            to == format.target(),
            renamed@ == converted(name@.take(it.index()), *format),
    {
        push_char(&mut renamed, if c == from { to } else { c });
        assert(name@.take(it.index() + 1) =~= name@.take(it.index()).push(c));
        assert(renamed@ =~= converted(name@.take(it.index() + 1), *format));
    }
    assert(name@.take(name@.len() as int) =~= name@);
    renamed
}

/// A name is left as it is exactly when it holds no character to replace.
pub proof fn lemma_unchanged_without_source(name: Seq<char>, rule: Format)
    ensures
        converted(name, rule) == name <==> !name.contains(rule.source()),
{
    let after = converted(name, rule);
    if !name.contains(rule.source()) {
        assert(after =~= name);
    } else {
        let i = choose|i: int| 0 <= i < name.len() && name[i] == rule.source();
        assert(after[i] == rule.target());
    }
}

/// Converting leaves none of the replaced character behind.
pub proof fn lemma_converted_has_no_source(name: Seq<char>, rule: Format)
    ensures
        !converted(name, rule).contains(rule.source()),
{
}

/// Converting a name that holds no character to replace, once or twice, gives
/// the name back.
pub proof fn lemma_converted_name_is_stable(name: Seq<char>, rule: Format)
    requires
        !name.contains(rule.source()),
    ensures
        converted(name, rule) == name,
        converted(converted(name, rule), rule) == name,
{
    lemma_unchanged_without_source(name, rule);
}

/// Converting a second time in the same direction changes nothing more.
pub proof fn lemma_converting_twice(name: Seq<char>, rule: Format)
    ensures
        converted(converted(name, rule), rule) == converted(name, rule),
{
    lemma_converted_has_no_source(name, rule);
    lemma_converted_name_is_stable(converted(name, rule), rule);
}

/// Converting and then converting back is the same as converting back alone,
/// so it restores the name exactly when the name held none of the character
/// that the first direction writes. A name that mixes both separators is not
/// restored.
pub proof fn lemma_round_trip(name: Seq<char>, rule: Format)
    ensures
        converted(converted(name, rule), rule.opposite()) == converted(name, rule.opposite()),
        converted(converted(name, rule), rule.opposite()) == name <==> !name.contains(
            rule.target(),
        ),
{
    assert(converted(converted(name, rule), rule.opposite()) =~= converted(
        name,
        rule.opposite(),
    ));
    lemma_unchanged_without_source(name, rule.opposite());
}

} // verus!
