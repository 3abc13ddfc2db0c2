//! Names derived from a type identifier.
//!
//! An identifier such as `FooBar` gives the association name `foo_bar`: the
//! first character in lower case, and before every later upper-case character
//! an underscore. The table name is the association name followed by `s`,
//! whatever the identifier ends in.
//!
//! Which characters are upper-case, and what their lower-case forms are, is
//! decided by `char::is_uppercase` and `char::to_lowercase`. The contracts
//! speak of those two results by name ([`char_is_uppercase`] and
//! [`char_to_lowercase`]) and say nothing of what they are for a given
//! character.

use vstd::prelude::*;
use vstd::std_specs::iter::IteratorSpec;

verus! {

/// Whether `char::is_uppercase` holds of a character.
pub uninterp spec fn char_is_uppercase(c: char) -> bool;

/// The characters that `char::to_lowercase` yields for a character, in order.
pub uninterp spec fn char_to_lowercase(c: char) -> Seq<char>;

/// `char::is_uppercase`. Assumed: the answer depends on the character alone.
#[verifier::external_body]
fn is_uppercase(c: char) -> (upper: bool)
    ensures
        upper == char_is_uppercase(c),
{
    c.is_uppercase()
}

/// `char::to_lowercase`, its iterator gathered into a vector. Assumed: the
/// characters that come out, and their order, depend on the character alone.
#[verifier::external_body]
fn to_lowercase(c: char) -> (lower: Vec<char>)
    ensures
        lower@ == char_to_lowercase(c),
{
    c.to_lowercase().collect()
}

/// `String::push`. Assumed: the string afterwards is the string before with
/// `c` appended.
#[verifier::external_body]
fn push_char(s: &mut String, c: char)
    ensures
        final(s)@ == old(s)@.push(c),
{
    s.push(c)
}

/// What a character after the first contributes to an association name, given
/// whether it is upper-case and what its lower-case form is: an underscore and
/// the lower-case form if it is upper-case, else the character itself.
pub open spec fn snake_piece(character: char, upper: bool, lower: Seq<char>) -> Seq<char> {
    if upper {
        seq!['_'] + lower
    } else {
        seq![character]
    }
}

/// The contributions of the characters after the first, one per character.
pub open spec fn snake_pieces(rest: Seq<char>) -> Seq<Seq<char>> {
    rest.map_values(|c: char| snake_piece(c, char_is_uppercase(c), char_to_lowercase(c)))
}

/// The association name of a non-empty identifier.
pub open spec fn association_name_of(name: Seq<char>) -> Seq<char>
    recommends
        name.len() > 0,
{
    char_to_lowercase(name[0]) + snake_pieces(name.drop_first()).flatten()
}

/// The table name of a non-empty identifier: its association name and an `s`.
pub open spec fn table_name_of(name: Seq<char>) -> Seq<char>
    recommends
        name.len() > 0,
{
    association_name_of(name).push('s')
}

/// No character after the first is upper-case.
pub open spec fn no_uppercase_after_first(name: Seq<char>) -> bool {
    forall|i: int| 1 <= i < name.len() ==> !char_is_uppercase(#[trigger] name[i])
}

/// An identifier that is already in lower snake case: it is not empty, its
/// first character is its own lower-case form, and no later character is
/// upper-case.
pub open spec fn is_lower_snake_case(name: Seq<char>) -> bool {
    &&& name.len() > 0
    &&& char_to_lowercase(name[0]) == seq![name[0]]
    &&& no_uppercase_after_first(name)
}

/// Characters of which none is upper-case contribute themselves.
proof fn lemma_pieces_without_uppercase(rest: Seq<char>)
    requires
        forall|i: int| 0 <= i < rest.len() ==> !char_is_uppercase(#[trigger] rest[i]),
    ensures
        snake_pieces(rest).flatten() == rest,
    decreases rest.len(),
{
    if rest.len() == 0 {
        assert(snake_pieces(rest) =~= Seq::<Seq<char>>::empty());
        assert(snake_pieces(rest).flatten() =~= rest);
    } else {
        let front = rest.drop_last();
        let last = rest.last();
        lemma_pieces_without_uppercase(front);
        assert(snake_pieces(rest) =~= snake_pieces(front).push(seq![last]));
        snake_pieces(front).lemma_flatten_push(seq![last]);
        assert(front + seq![last] =~= rest);
    }
}

/// Where no character after the first is upper-case, the association name is
/// the lower-case form of the first character followed by the other
/// characters as they are: no underscore is put in.
pub proof fn lemma_no_uppercase_no_underscore(name: Seq<char>)
    requires
        name.len() > 0,
        no_uppercase_after_first(name),
    ensures
        association_name_of(name) == char_to_lowercase(name[0]) + name.drop_first(),
{
    let rest = name.drop_first();
    assert forall|i: int| 0 <= i < rest.len() implies !char_is_uppercase(#[trigger] rest[i]) by {
        assert(rest[i] == name[i + 1]);
    }
    lemma_pieces_without_uppercase(rest);
}

/// An identifier in lower snake case is its own association name, so that
/// inferring the association name once more changes nothing.
pub proof fn lemma_lower_snake_case_is_kept(name: Seq<char>)
    requires
        is_lower_snake_case(name),
    ensures
        association_name_of(name) == name,
        association_name_of(association_name_of(name)) == association_name_of(name),
{
    lemma_no_uppercase_no_underscore(name);
    assert(seq![name[0]] + name.drop_first() =~= name);
}

/// The association name starts with the lower-case form of the identifier's
/// first character.
pub proof fn lemma_starts_with_lowercase_first(name: Seq<char>)
    requires
        name.len() > 0,
    ensures
        char_to_lowercase(name[0]).is_prefix_of(association_name_of(name)),
{
    let head = char_to_lowercase(name[0]);
    let whole = association_name_of(name);
    assert(whole.subrange(0, head.len() as int) =~= head);
}

/// Appends the characters of `chars` to `result`, in order.
pub fn push_chars(result: &mut String, chars: &Vec<char>)
    ensures
        final(result)@ == old(result)@ + chars@,
{
    let mut i: usize = 0;
    while i < chars.len()
        invariant
            i <= chars.len(),
            result@ == old(result)@ + chars@.take(i as int),
        decreases chars.len() - i,
    {
        push_char(result, chars[i]);
        assert(chars@.take(i as int).push(chars@[i as int]) =~= chars@.take(i + 1));
        i = i + 1;
    }
    assert(chars@.take(i as int) =~= chars@);
}

/// Appends to `result` what a character after the first contributes, given
/// whether the character is upper-case (`upper`) and its lower-case form
/// (`lower`, read only where `upper` holds).
pub fn push_snake_piece(result: &mut String, character: char, upper: bool, lower: &Vec<char>)
    ensures
        final(result)@ == old(result)@ + snake_piece(character, upper, lower@),
{
    if upper {
        push_char(result, '_');
        push_chars(result, lower);
        assert(old(result)@.push('_') + lower@ =~= old(result)@ + (seq!['_'] + lower@));
    } else {
        push_char(result, character);
        assert(old(result)@.push(character) =~= old(result)@ + seq![character]);
    }
}

/// The association name of an identifier: its first character in lower case,
/// then each later character, an upper-case one replaced by an underscore and
/// its lower-case form.
///
/// The identifier must not be empty.
pub fn infer_association_name(name: &str) -> (result: String)
    requires
        name@.len() > 0,
    ensures
        result@ == association_name_of(name@),
        char_to_lowercase(name@[0]).is_prefix_of(result@),
        no_uppercase_after_first(name@) ==> result@ == char_to_lowercase(name@[0])
            + name@.drop_first(),
        is_lower_snake_case(name@) ==> result@ == name@,
{
    let mut result = String::new();
    let mut chars = name.chars();
    let ghost rest = name@.drop_first();
    let ghost mut seen: int = 0;
    if let Some(first) = chars.next() {
        let lower = to_lowercase(first);
        push_chars(&mut result, &lower);
    }
    assert(snake_pieces(rest.take(0)) =~= Seq::<Seq<char>>::empty());
    loop
        invariant
            0 <= seen <= rest.len(),
            rest == name@.drop_first(),
            chars.obeys_prophetic_iter_laws(),
            chars.remaining() == rest.skip(seen),
            result@ == char_to_lowercase(name@[0]) + snake_pieces(rest.take(seen)).flatten(),
        ensures
            result@ == association_name_of(name@),
        decreases rest.len() - seen,
    {
        match chars.next() {
            Some(character) => {
                let upper = is_uppercase(character);
                let lower = if upper {
                    to_lowercase(character)
                } else {
                    Vec::new()
                };
                push_snake_piece(&mut result, character, upper, &lower);
                proof {
                    let piece = snake_piece(
                        character,
                        char_is_uppercase(character),
                        char_to_lowercase(character),
                    );
                    assert(character == rest[seen]);
                    assert(snake_pieces(rest.take(seen + 1)) =~= snake_pieces(
                        rest.take(seen),
                    ).push(piece));
                    snake_pieces(rest.take(seen)).lemma_flatten_push(piece);
                    seen = seen + 1;
                }
            },
            None => {
                assert(rest.take(seen) =~= rest);
                break ;
            },
        }
    }
    proof {
        lemma_starts_with_lowercase_first(name@);
        if no_uppercase_after_first(name@) {
            lemma_no_uppercase_no_underscore(name@);
        }
        if is_lower_snake_case(name@) {
            lemma_lower_snake_case_is_kept(name@);
        }
    }
    result
}

/// The table name of an identifier: its association name with `s` appended,
/// whatever the identifier ends in.
///
/// The identifier must not be empty.
pub fn infer_table_name(name: &str) -> (result: String)
    requires
        name@.len() > 0,
    ensures
        result@ == table_name_of(name@),
        result@ == association_name_of(name@) + seq!['s'],
{
    let mut result = infer_association_name(name);
    push_char(&mut result, 's');
    assert(association_name_of(name@).push('s') =~= association_name_of(name@) + seq!['s']);
    result
}

} // verus!
