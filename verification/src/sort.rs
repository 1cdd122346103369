//! Sort specifications: a comma-separated list of `field:direction` tokens.
//!
//! A token names a field, then optionally a colon and a direction. Names and
//! directions are compared in lowercase, with the whitespace around them gone.
//! A token with an unknown field is left out; so is an empty one.

use crate::json::{json_option, Json, JsonValue};
use crate::text::{
    blank, chars_of, find, find_in, lemma_find, lemma_find_bounds, lemma_trim_blank, lowercase,
    text_eq, trim, trim_range,
};
use vstd::prelude::*;
use vstd::string::*;

verus! {

/// A field by which aggregates can be ordered.
#[derive(Clone, Copy, Debug, PartialEq, Eq, Structural)]
pub enum AggregateSortField {
    AggregateType,
    AggregateId,
    Archived,
    CreatedAt,
    UpdatedAt,
}

/// One entry of a sort specification.
#[derive(Clone, Copy, Debug, PartialEq, Eq, Structural)]
pub struct AggregateSort {
    pub field: AggregateSortField,
    pub descending: bool,
}

/// The field that a lowercase name stands for.
pub open spec fn sort_field(name: Seq<char>) -> Option<AggregateSortField> {
    if name == "aggregate_type"@ || name == "type"@ {
        Some(AggregateSortField::AggregateType)
    } else if name == "aggregate_id"@ || name == "id"@ {
        Some(AggregateSortField::AggregateId)
    } else if name == "archived"@ {
        Some(AggregateSortField::Archived)
    } else if name == "created_at"@ {
        Some(AggregateSortField::CreatedAt)
    } else if name == "updated_at"@ {
        Some(AggregateSortField::UpdatedAt)
    } else {
        None
    }
}

/// Whether a lowercase direction asks for descending order.
pub open spec fn descending_order(order: Seq<char>) -> bool {
    order == "desc"@ || order == "descending"@
}

/// The entry that a token denotes, if its field is known. Without a colon the
/// order is ascending.
pub open spec fn sort_token(token: Seq<char>) -> Option<AggregateSort> {
    let k = find(token, ':');
    let name = lowercase(trim(token.take(k)));
    let descending = k < token.len() && descending_order(lowercase(trim(token.skip(k + 1))));
    match sort_field(name) {
        Some(field) => Some(AggregateSort { field, descending }),
        None => None,
    }
}

/// What one piece between commas adds to the result: nothing, or one entry.
pub open spec fn sort_piece(piece: Seq<char>) -> Seq<AggregateSort> {
    let token = trim(piece);
    if token.len() == 0 {
        Seq::empty()
    } else {
        match sort_token(token) {
            Some(entry) => seq![entry],
            None => Seq::empty(),
        }
    }
}

/// The entries of a sort text: those of its pieces, in the order of the pieces.
pub open spec fn sort_text(text: Seq<char>) -> Seq<AggregateSort>
    decreases text.len(),
{
    let k = find(text, ',');
    if 0 <= k < text.len() {
        sort_piece(text.take(k)) + sort_text(text.skip(k + 1))
    } else {
        sort_piece(text)
    }
}

/// The entries of a sort option: those of its text where it is a string, and
/// none otherwise.
pub open spec fn sort_spec(value: Option<JsonValue>) -> Seq<AggregateSort> {
    match value {
        Some(JsonValue::String(text)) => sort_text(text),
        _ => Seq::empty(),
    }
}

/// Tokens are read one by one and in order: the entries of two texts joined
/// by a comma are the entries of the first followed by those of the second.
pub proof fn lemma_sort_order(a: Seq<char>, b: Seq<char>)
    ensures
        sort_text(a + seq![','] + b) == sort_text(a) + sort_text(b),
    decreases a.len(),
{
    let t = a + seq![','] + b;
    let ka = find(a, ',');
    lemma_find_bounds(a, ',');
    if ka < a.len() {
        assert forall|i: int| 0 <= i < ka implies #[trigger] t[i] != ',' by {
            assert(t[i] == a[i]);
        }
        assert(t[ka] == a[ka]);
        lemma_find(t, ',', ka);
        let rest = a.skip(ka + 1);
        assert(t.take(ka) == a.take(ka));
        assert(t.skip(ka + 1) == rest + seq![','] + b);
        lemma_sort_order(rest, b);
        assert(sort_text(t) == sort_piece(a.take(ka)) + (sort_text(rest) + sort_text(b)));
        assert(sort_text(a) == sort_piece(a.take(ka)) + sort_text(rest));
        assert(sort_piece(a.take(ka)) + (sort_text(rest) + sort_text(b)) == (sort_piece(
            a.take(ka),
        ) + sort_text(rest)) + sort_text(b));
    } else {
        assert forall|i: int| 0 <= i < a.len() implies #[trigger] t[i] != ',' by {
            assert(t[i] == a[i]);
        }
        assert(t[a.len() as int] == ',');
        lemma_find(t, ',', a.len() as int);
        assert(t.take(a.len() as int) == a);
        assert(t.skip(a.len() as int + 1) == b);
    }
}

/// A piece of nothing but whitespace adds no entry.
pub proof fn lemma_sort_blank_dropped(piece: Seq<char>)
    requires
        blank(piece),
    ensures
        sort_piece(piece) == Seq::<AggregateSort>::empty(),
{
    lemma_trim_blank(piece);
}

/// A piece without a comma adds at most one entry, and none where its token is
/// empty or names no known field.
pub proof fn lemma_sort_unknown_dropped(piece: Seq<char>)
    requires
        forall|i: int| 0 <= i < piece.len() ==> #[trigger] piece[i] != ',',
    ensures
        sort_text(piece) == sort_piece(piece),
        sort_text(piece).len() <= 1,
        sort_text(piece).len() == 1 <==> trim(piece).len() > 0 && sort_field(
            lowercase(trim(trim(piece).take(find(trim(piece), ':')))),
        ) is Some,
        sort_text(piece).len() == 1 ==> sort_text(piece)[0].field == sort_field(
            lowercase(trim(trim(piece).take(find(trim(piece), ':')))),
        )->0,
{
    lemma_find(piece, ',', piece.len() as int);
}

/// The direction is read in lowercase, and a token without a colon is
/// ascending: an entry is descending exactly where a colon is followed by a
/// direction whose lowercase is `desc` or `descending`.
pub proof fn lemma_sort_direction(token: Seq<char>)
    ensures
        sort_token(token) matches Some(entry) ==> (entry.descending <==> find(token, ':')
            < token.len() && descending_order(
            lowercase(trim(token.skip(find(token, ':') + 1))),
        )),
        find(token, ':') >= token.len() ==> (sort_token(token) matches Some(entry)
            ==> !entry.descending),
{
}

/// The field that a lowercase name stands for.
pub fn sort_field_of(name: &str) -> (r: Option<AggregateSortField>)
    ensures
        r == sort_field(name@),
{
    if text_eq(name, "aggregate_type") || text_eq(name, "type") {
        Some(AggregateSortField::AggregateType)
    } else if text_eq(name, "aggregate_id") || text_eq(name, "id") {
        Some(AggregateSortField::AggregateId)
    } else if text_eq(name, "archived") {
        Some(AggregateSortField::Archived)
    } else if text_eq(name, "created_at") {
        Some(AggregateSortField::CreatedAt)
    } else if text_eq(name, "updated_at") {
        Some(AggregateSortField::UpdatedAt)
    } else {
        None
    }
}

/// Whether a lowercase direction asks for descending order.
pub fn is_descending(order: &str) -> (r: bool)
    ensures
        r == descending_order(order@),
{
    text_eq(order, "desc") || text_eq(order, "descending")
}

/// The lowercase of the characters `from..to` of the text, without the
/// whitespace around them.
fn lowercase_trimmed(text: &str, chars: &Vec<char>, from: usize, to: usize) -> (r: String)
    requires
        chars@ == text@,
        from <= to <= chars.len(),
    ensures
        r@ == lowercase(trim(chars@.subrange(from as int, to as int))),
{
    let (a, b) = trim_range(chars, from, to);
    text.substring_char(a, b).to_lowercase()
}

/// What the piece `from..to` of the text adds to the result.
fn parse_sort_piece(text: &str, chars: &Vec<char>, from: usize, to: usize) -> (r: Option<
    AggregateSort,
>)
    requires
        chars@ == text@,
        from <= to <= chars.len(),
    ensures
        match r {
            Some(entry) => sort_piece(chars@.subrange(from as int, to as int)) == seq![entry],
            None => sort_piece(chars@.subrange(from as int, to as int)) == Seq::<
                AggregateSort,
            >::empty(),
        },
{
    let (a, b) = trim_range(chars, from, to);
    if a == b {
        return None;
    }
    let k = find_in(chars, a, b, ':');
    let ghost token = chars@.subrange(a as int, b as int);
    proof {
        assert(token.take(k - a) == chars@.subrange(a as int, k as int));
        if k < b {
            assert(token.skip(k - a + 1) == chars@.subrange(k + 1, b as int));
        }
    }
    let name = lowercase_trimmed(text, chars, a, k);
    let field = match sort_field_of(name.as_str()) {
        Some(field) => field,
        None => {
            return None;
        },
    };
    let descending = if k < b {
        let order = lowercase_trimmed(text, chars, k + 1, b);
        is_descending(order.as_str())
    } else {
        false
    };
    Some(AggregateSort { field, descending })
}

/// Reads the sort specification of a text.
pub fn parse_sort_text(text: &str) -> (sorts: Vec<AggregateSort>)
    ensures
        sorts@ == sort_text(text@),
{
    let mut sorts: Vec<AggregateSort> = Vec::new();
    let chars = chars_of(text);
    let n = chars.len();
    let mut start: usize = 0;
    proof {
        assert(text@.skip(0) == text@);
        assert(sorts@ + sort_text(text@) == sort_text(text@));
    }
    loop
        invariant_except_break
            start <= n,
            sort_text(text@) == sorts@ + sort_text(text@.skip(start as int)),
        invariant
            n == chars.len(),
            chars@ == text@,
        ensures
            sorts@ == sort_text(text@),
        decreases n - start,
    {
        let end = find_in(&chars, start, n, ',');
        let entry = parse_sort_piece(text, &chars, start, end);
        let ghost rest = text@.skip(start as int);
        let ghost before = sorts@;
        proof {
            assert(rest == chars@.subrange(start as int, n as int));
            assert(rest.take(end - start) == chars@.subrange(start as int, end as int));
        }
        match entry {
            Some(e) => {
                sorts.push(e);
                assert(sorts@ == before + sort_piece(chars@.subrange(start as int, end as int)));
            },
            None => {
                assert(sorts@ == before + sort_piece(chars@.subrange(start as int, end as int)));
            },
        }
        if end == n {
            break;
        }
        proof {
            assert(rest.skip(end - start + 1) == text@.skip(end + 1));
            let piece = sort_piece(rest.take(end - start));
            let tail = sort_text(text@.skip(end + 1));
            assert(before + (piece + tail) == (before + piece) + tail);
        }
        start = end + 1;
    }
    sorts
}

/// Reads the sort specification of an option: the entries of its text where
/// it is a string, and none otherwise.
pub fn parse_sort(value: Option<&Json>) -> (sorts: Vec<AggregateSort>)
    ensures
        sorts@ == sort_spec(json_option(value)),
{
    match value {
        Some(v) => match v.as_str() {
            Some(text) => parse_sort_text(text),
            None => Vec::new(),
        },
        None => Vec::new(),
    }
}

/// Reading is repeatable: two readings of options with the same value give
/// the same entries.
pub proof fn lemma_parse_sort_repeatable(
    a: Option<&Json>,
    b: Option<&Json>,
    first: Vec<AggregateSort>,
    second: Vec<AggregateSort>,
)
    requires
        json_option(a) == json_option(b),
        call_ensures(parse_sort, (a,), first),
        call_ensures(parse_sort, (b,), second),
    ensures
        first@ == second@,
{
}

} // verus!
