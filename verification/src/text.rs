//! Texts that caches are keyed by: fields with a separator between them.

use vstd::prelude::*;

verus! {

/// The segments, with `separator` between each two.
pub open spec fn joined(segments: Seq<Seq<char>>, separator: char) -> Seq<char>
    decreases segments.len(),
{
    if segments.len() == 0 {
        Seq::empty()
    } else if segments.len() == 1 {
        segments[0]
    } else {
        segments[0] + seq![separator] + joined(segments.drop_first(), separator)
    }
}

/// Whether none of the segments holds the separator.
pub open spec fn separable(segments: Seq<Seq<char>>, separator: char) -> bool {
    forall|i: int| 0 <= i < segments.len() ==> !(#[trigger] segments[i]).contains(separator)
}

pub(crate) proof fn lemma_split_at_separator(
    head1: Seq<char>,
    tail1: Seq<char>,
    head2: Seq<char>,
    tail2: Seq<char>,
    separator: char,
)
    requires
        !head1.contains(separator),
        !head2.contains(separator),
        head1 + seq![separator] + tail1 == head2 + seq![separator] + tail2,
    ensures
        head1 == head2,
        tail1 == tail2,
{
    let whole1 = head1 + seq![separator] + tail1;
    let whole2 = head2 + seq![separator] + tail2;
    assert(whole1[head1.len() as int] == separator);
    assert(whole2[head2.len() as int] == separator);
    if head1.len() < head2.len() {
        assert(head2[head1.len() as int] == whole2[head1.len() as int]);
        assert(head2.contains(separator));
    }
    if head2.len() < head1.len() {
        assert(head1[head2.len() as int] == whole1[head2.len() as int]);
        assert(head1.contains(separator));
    }
    assert forall|i: int| 0 <= i < head1.len() implies head1[i] == head2[i] by {
        assert(head1[i] == whole1[i]);
        assert(head2[i] == whole2[i]);
    }
    assert(head1 =~= head2);
    assert(tail1 =~= whole1.skip(head1.len() as int + 1));
    assert(tail2 =~= whole2.skip(head2.len() as int + 1));
}

/// Segments without the separator can be read back from their joined text: two
/// lists of one length that join to the same text are the same list.
pub proof fn joined_is_injective(left: Seq<Seq<char>>, right: Seq<Seq<char>>, separator: char)
    requires
        left.len() == right.len(),
        separable(left, separator),
        separable(right, separator),
        joined(left, separator) == joined(right, separator),
    ensures
        left == right,
    decreases left.len(),
{
    if left.len() == 0 {
        assert(left =~= right);
    } else if left.len() == 1 {
        assert(left =~= right);
    } else {
        let left_rest = left.drop_first();
        let right_rest = right.drop_first();
        assert(!left[0].contains(separator) && !right[0].contains(separator));
        lemma_split_at_separator(
            left[0],
            joined(left_rest, separator),
            right[0],
            joined(right_rest, separator),
            separator,
        );
        assert forall|i: int| 0 <= i < left_rest.len() implies !(
        #[trigger] left_rest[i]).contains(separator) by {
            assert(left_rest[i] == left[i + 1]);
        }
        assert forall|i: int| 0 <= i < right_rest.len() implies !(
        #[trigger] right_rest[i]).contains(separator) by {
            assert(right_rest[i] == right[i + 1]);
        }
        joined_is_injective(left_rest, right_rest, separator);
        assert forall|i: int| 0 <= i < left.len() implies left[i] == right[i] by {
            if i > 0 {
                assert(left[i] == left_rest[i - 1]);
                assert(right[i] == right_rest[i - 1]);
            }
        }
        assert(left =~= right);
    }
}

/// One more segment at the end.
pub(crate) proof fn lemma_joined_push(segments: Seq<Seq<char>>, segment: Seq<char>, separator: char)
    requires
        segments.len() > 0,
    ensures
        joined(segments.push(segment), separator) == joined(segments, separator) + seq![separator]
            + segment,
    decreases segments.len(),
{
    let longer = segments.push(segment);
    if segments.len() == 1 {
        assert(longer.drop_first() =~= seq![segment]);
        assert(joined(seq![segment], separator) == segment);
    } else {
        lemma_joined_push(segments.drop_first(), segment, separator);
        assert(longer.drop_first() =~= segments.drop_first().push(segment));
        assert(joined(longer, separator) =~= joined(segments, separator) + seq![separator]
            + segment);
    }
}

/// The decimal digit for a number below ten.
pub open spec fn digit(n: nat) -> char {
    "0123456789"@[n as int]
}

/// A number in decimal, without leading zeros.
pub open spec fn decimal(n: nat) -> Seq<char>
    decreases n,
{
    if n < 10 {
        seq![digit(n)]
    } else {
        decimal(n / 10).push(digit(n % 10))
    }
}

/// A truth value as text.
pub open spec fn bool_text(value: bool) -> Seq<char> {
    if value {
        "true"@
    } else {
        "false"@
    }
}

/// Writes a truth value as text.
pub fn bool_to_text(value: bool) -> (text: &'static str)
    ensures
        text@ == bool_text(value),
{
    if value {
        "true"
    } else {
        "false"
    }
}

fn digit_to_text(n: u64) -> (text: &'static str)
    requires
        n < 10,
    ensures
        text@ == seq![digit(n as nat)],
{
    proof {
        reveal_strlit("0123456789");
        reveal_strlit("0");
        reveal_strlit("1");
        reveal_strlit("2");
        reveal_strlit("3");
        reveal_strlit("4");
        reveal_strlit("5");
        reveal_strlit("6");
        reveal_strlit("7");
        reveal_strlit("8");
        reveal_strlit("9");
    }
    match n {
        0 => "0",
        1 => "1",
        2 => "2",
        3 => "3",
        4 => "4",
        5 => "5",
        6 => "6",
        7 => "7",
        8 => "8",
        _ => "9",
    }
}

/// Writes a number in decimal.
pub fn decimal_to_text(n: u64) -> (text: String)
    ensures
        text@ == decimal(n as nat),
    decreases n,
{
    let mut text = if n < 10 {
        String::new()
    } else {
        decimal_to_text(n / 10)
    };
    text.append(digit_to_text(n % 10));
    assert(text@ =~= decimal(n as nat));
    text
}

proof fn lemma_digits_differ(a: nat, b: nat)
    requires
        a < 10,
        b < 10,
        digit(a) == digit(b),
    ensures
        a == b,
{
    reveal_strlit("0123456789");
}

proof fn lemma_decimal_len(n: nat)
    ensures
        decimal(n).len() >= 1,
        n >= 10 ==> decimal(n).len() >= 2,
    decreases n,
{
    if n >= 10 {
        lemma_decimal_len(n / 10);
    }
}

/// Different numbers have different decimal texts.
pub proof fn decimal_is_injective(a: nat, b: nat)
    requires
        decimal(a) == decimal(b),
    ensures
        a == b,
    decreases a,
{
    lemma_decimal_len(a);
    lemma_decimal_len(b);
    if a < 10 {
        assert(decimal(a)[0] == digit(a));
        assert(decimal(b)[0] == digit(b));
        lemma_digits_differ(a, b);
    } else {
        assert(decimal(a).last() == digit(a % 10));
        assert(decimal(b).last() == digit(b % 10));
        lemma_digits_differ(a % 10, b % 10);
        assert(decimal(a / 10) =~= decimal(a).drop_last());
        assert(decimal(b / 10) =~= decimal(b).drop_last());
        decimal_is_injective(a / 10, b / 10);
    }
}

/// A decimal text holds nothing but digits.
pub proof fn decimal_holds_digits(n: nat, c: char)
    requires
        decimal(n).contains(c),
    ensures
        "0123456789"@.contains(c),
    decreases n,
{
    reveal_strlit("0123456789");
    if n < 10 {
        assert("0123456789"@[n as int] == c);
    } else {
        let i = choose|i: int| 0 <= i < decimal(n).len() && decimal(n)[i] == c;
        if i < decimal(n / 10).len() {
            assert(decimal(n / 10)[i] == c);
            decimal_holds_digits(n / 10, c);
        } else {
            assert("0123456789"@[(n % 10) as int] == c);
        }
    }
}

/// Whether `create_short_hash`, called on a text that reads `text`, may return a
/// hash that reads `hash`.
pub open spec fn hashes_to<F>(create_short_hash: F, text: Seq<char>, hash: Seq<char>) -> bool where
    F: Fn(&str) -> String,
 {
    exists|input: &str, output: String|
        input@ == text && output@ == hash && #[trigger] call_ensures(
            create_short_hash,
            (input,),
            output,
        )
}

/// A text that is built field by field.
pub(crate) struct FieldText {
    pub(crate) text: String,
    pub(crate) separator: &'static str,
    pub(crate) fields: Ghost<Seq<Seq<char>>>,
}

impl FieldText {
    /// Whether the text is what its fields join to.
    pub(crate) open spec fn well_formed(self) -> bool {
        &&& self.separator@.len() == 1
        &&& self.fields@.len() > 0
        &&& self.text@ == joined(self.fields@, self.separator@[0])
    }

    /// A text with one field.
    pub(crate) fn new(field: &str, separator: &'static str) -> (text: FieldText)
        requires
            separator@.len() == 1,
        ensures
            text.well_formed(),
            text.separator@ == separator@,
            text.fields@ == seq![field@],
    {
        let ghost fields = seq![field@];
        FieldText { text: field.to_owned(), separator, fields: Ghost(fields) }
    }

    /// Adds a field that is made of a label and a value.
    pub(crate) fn push(&mut self, label: &str, value: &str)
        requires
            old(self).well_formed(),
        ensures
            final(self).well_formed(),
            final(self).separator@ == old(self).separator@,
            final(self).fields@ == old(self).fields@.push(label@ + value@),
    {
        proof {
            lemma_joined_push(self.fields@, label@ + value@, self.separator@[0]);
        }
        self.text.append(self.separator);
        self.text.append(label);
        self.text.append(value);
        self.fields = Ghost(self.fields@.push(label@ + value@));
        assert(self.text@ =~= old(self).text@ + seq![self.separator@[0]] + (label@ + value@));
    }
}

/// The number that a digit stands for.
pub open spec fn digit_value(c: char) -> int {
    c as int - '0' as int
}

/// The number that a text of digits reads as, from the left.
pub open spec fn read_decimal(text: Seq<char>) -> int
    decreases text.len(),
{
    if text.len() == 0 {
        0
    } else {
        10 * read_decimal(text.drop_last()) + digit_value(text.last())
    }
}

proof fn lemma_decimal_reads_back(n: nat)
    ensures
        decimal(n).len() >= 1,
        read_decimal(decimal(n)) == n,
        forall|i: int| 0 <= i < decimal(n).len() ==> '0' <= #[trigger] decimal(n)[i] <= '9',
        n > 0 ==> decimal(n)[0] != '0',
    decreases n,
{
    reveal_strlit("0123456789");
    reveal_with_fuel(read_decimal, 2);
    if n < 10 {
        assert(decimal(n).drop_last() =~= Seq::empty());
    } else {
        lemma_decimal_reads_back(n / 10);
        let shorter = decimal(n / 10);
        assert(decimal(n).drop_last() =~= shorter);
        assert forall|i: int| 0 <= i < decimal(n).len() implies '0' <= #[trigger] decimal(n)[i]
            <= '9' by {
            if i < shorter.len() {
                assert(decimal(n)[i] == shorter[i]);
            }
        }
        assert(decimal(n)[0] == shorter[0]);
    }
}

/// A number is written in decimal digits that read back as that number, without a
/// leading zero.
pub proof fn numbers_read_back(n: u64, text: String)
    requires
        call_ensures(decimal_to_text, (n,), text),
    ensures
        text@.len() >= 1,
        read_decimal(text@) == n,
        forall|i: int| 0 <= i < text@.len() ==> '0' <= #[trigger] text@[i] <= '9',
        n > 0 ==> text@[0] != '0',
        n == 0 ==> text@ == seq!['0'],
{
    lemma_decimal_reads_back(n as nat);
    reveal_strlit("0123456789");
}

/// Truth values are written as `true` and `false`.
pub proof fn truth_values_are_spelled_out(value: bool, text: &'static str)
    requires
        call_ensures(bool_to_text, (value,), text),
    ensures
        value ==> text@ == seq!['t', 'r', 'u', 'e'],
        !value ==> text@ == seq!['f', 'a', 'l', 's', 'e'],
{
    reveal_strlit("true");
    reveal_strlit("false");
}

/// Joined segments begin with the first of them and, where there are more, go on
/// with the separator and the others.
pub proof fn joined_segments_follow_each_other(
    first: Seq<char>,
    others: Seq<Seq<char>>,
    separator: char,
)
    ensures
        joined(seq![first], separator) == first,
        others.len() > 0 ==> joined(seq![first] + others, separator) == first + seq![separator]
            + joined(others, separator),
{
    assert((seq![first] + others).drop_first() =~= others);
}

} // verus!
