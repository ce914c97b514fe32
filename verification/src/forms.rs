//! Text that a user types into a form, and text shown back.
//!
//! The measurement names of a product type are entered as one line,
//! separated by commas; a product type is shown with its names in brackets.

use vstd::prelude::*;

verus! {

/// Whether a character is white space: one of the code points that Unicode
/// gives the property `White_Space`.
pub open spec fn is_space(c: char) -> bool {
    let n = c as u32;
    ||| 0x09 <= n <= 0x0D
    ||| n == 0x20
    ||| n == 0x85
    ||| n == 0xA0
    ||| n == 0x1680
    ||| 0x2000 <= n <= 0x200A
    ||| n == 0x2028
    ||| n == 0x2029
    ||| n == 0x202F
    ||| n == 0x205F
    ||| n == 0x3000
}

/// Whether a character is white space.
pub fn is_white_space(c: char) -> (b: bool)
    ensures
        b == is_space(c),
{
    let n = c as u32;
    (0x09 <= n && n <= 0x0D) || n == 0x20 || n == 0x85 || n == 0xA0 || n == 0x1680 || (0x2000 <= n
        && n <= 0x200A) || n == 0x2028 || n == 0x2029 || n == 0x202F || n == 0x205F || n == 0x3000
}

/// How many white-space characters a text begins with.
pub open spec fn leading_spaces(s: Seq<char>) -> nat
    decreases s.len(),
{
    if s.len() > 0 && is_space(s.first()) {
        1 + leading_spaces(s.drop_first())
    } else {
        0
    }
}

/// How many white-space characters a text ends with.
pub open spec fn trailing_spaces(s: Seq<char>) -> nat
    decreases s.len(),
{
    if s.len() > 0 && is_space(s.last()) {
        1 + trailing_spaces(s.drop_last())
    } else {
        0
    }
}

/// A text without the white space that it begins and ends with.
pub open spec fn trimmed(s: Seq<char>) -> Seq<char> {
    if leading_spaces(s) == s.len() {
        Seq::empty()
    } else {
        s.subrange(leading_spaces(s) as int, s.len() - trailing_spaces(s))
    }
}

/// The leading white space of a text ends at the first position that is
/// preceded by white space only and holds none itself.
proof fn leading_spaces_end(s: Seq<char>, a: int)
    requires
        0 <= a <= s.len(),
        forall|j: int| 0 <= j < a ==> is_space(#[trigger] s[j]),
        a < s.len() ==> !is_space(s[a]),
    ensures
        leading_spaces(s) == a,
    decreases s.len(),
{
    if a > 0 {
        let rest = s.drop_first();
        assert forall|j: int| 0 <= j < a - 1 implies is_space(#[trigger] rest[j]) by {
            assert(rest[j] == s[j + 1]);
        }
        leading_spaces_end(rest, a - 1);
    }
}

/// The trailing white space of a text begins at the last position that is
/// followed by white space only and is not preceded by any.
proof fn trailing_spaces_begin(s: Seq<char>, b: int)
    requires
        0 <= b <= s.len(),
        forall|j: int| b <= j < s.len() ==> is_space(#[trigger] s[j]),
        b > 0 ==> !is_space(s[b - 1]),
    ensures
        trailing_spaces(s) == s.len() - b,
    decreases s.len(),
{
    if b < s.len() {
        let rest = s.drop_last();
        assert forall|j: int| b <= j < rest.len() implies is_space(#[trigger] rest[j]) by {
            assert(rest[j] == s[j]);
        }
        trailing_spaces_begin(rest, b);
    }
}

/// Finds the part of `text` between the positions `from` and `to` that is
/// left when white space is taken off both of its ends.
fn trim_bounds(text: &str, from: usize, to: usize) -> (bounds: (usize, usize))
    requires
        from <= to <= text@.len(),
    ensures
        from <= bounds.0 <= bounds.1 <= to,
        text@.subrange(bounds.0 as int, bounds.1 as int) == trimmed(
            text@.subrange(from as int, to as int),
        ),
{
    let ghost piece = text@.subrange(from as int, to as int);
    let mut a = from;
    while a < to && is_white_space(text.get_char(a))
        invariant
            from <= a <= to <= text@.len(),
            forall|j: int| from <= j < a ==> is_space(#[trigger] text@[j]),
        decreases to - a,
    {
        a += 1;
    }
    proof {
        assert forall|j: int| 0 <= j < a - from implies is_space(#[trigger] piece[j]) by {
            assert(piece[j] == text@[from + j]);
        }
        leading_spaces_end(piece, a - from);
    }
    if a == to {
        assert(text@.subrange(a as int, a as int) =~= Seq::<char>::empty());
        return (a, a);
    }
    let mut b = to;
    while b > a + 1 && is_white_space(text.get_char(b - 1))
        invariant
            from <= a < b <= to <= text@.len(),
            forall|j: int| b <= j < to ==> is_space(#[trigger] text@[j]),
        decreases b - a,
    {
        b -= 1;
    }
    proof {
        assert forall|j: int| b - from <= j < piece.len() implies is_space(#[trigger] piece[j]) by {
            assert(piece[j] == text@[from + j]);
        }
        assert(piece[b - from - 1] == text@[b - 1]);
        assert(piece[a - from] == text@[a as int]);
        trailing_spaces_begin(piece, b - from);
        assert(text@.subrange(a as int, b as int) =~= piece.subrange(a - from, b - from));
    }
    (a, b)
}

/// Where the first comma of a text stands; its length where it holds none.
pub open spec fn first_comma(s: Seq<char>) -> int
    decreases s.len(),
{
    if s.len() == 0 || s.first() == ',' {
        0
    } else {
        1 + first_comma(s.drop_first())
    }
}

/// The parts of a text that its commas separate, in order. A text of `n`
/// commas has `n + 1` parts, some of which may be empty.
pub open spec fn pieces(s: Seq<char>) -> Seq<Seq<char>>
    decreases s.len(),
{
    let i = first_comma(s);
    if 0 <= i < s.len() {
        seq![s.take(i)] + pieces(s.skip(i + 1))
    } else {
        seq![s]
    }
}

/// The measurement names that a line of text declares: the parts between its
/// commas, each without the white space around it, those left out that are
/// then empty.
pub open spec fn declared_keys(line: Seq<char>) -> Seq<Seq<char>> {
    pieces(line).map_values(|piece: Seq<char>| trimmed(piece)).filter(
        |key: Seq<char>| key.len() > 0,
    )
}

/// A name by itself if it is not empty, and nothing otherwise.
pub open spec fn kept(key: Seq<char>) -> Seq<Seq<char>> {
    if key.len() > 0 {
        seq![key]
    } else {
        Seq::empty()
    }
}

/// The first comma stands at the first position that holds one.
proof fn first_comma_at(s: Seq<char>, i: int)
    requires
        0 <= i <= s.len(),
        forall|j: int| 0 <= j < i ==> #[trigger] s[j] != ',',
        i < s.len() ==> s[i] == ',',
    ensures
        first_comma(s) == i,
    decreases s.len(),
{
    if i > 0 {
        let rest = s.drop_first();
        assert forall|j: int| 0 <= j < i - 1 implies #[trigger] rest[j] != ',' by {
            assert(rest[j] == s[j + 1]);
        }
        first_comma_at(rest, i - 1);
    }
}

/// What one part contributes to the declared names.
proof fn declared_keys_of_one(piece: Seq<char>)
    ensures
        seq![piece].map_values(|p: Seq<char>| trimmed(p)).filter(|key: Seq<char>| key.len() > 0)
            == kept(trimmed(piece)),
{
    let keep = |key: Seq<char>| key.len() > 0;
    let one = seq![piece].map_values(|p: Seq<char>| trimmed(p));
    assert(one =~= seq![trimmed(piece)]);
    reveal_with_fuel(Seq::filter, 2);
    assert(one.drop_last() =~= Seq::<Seq<char>>::empty());
    assert(one.filter(keep) =~= kept(trimmed(piece)));
}

/// The names that a line declares, part by part: those of the part before
/// its first comma, then those of the rest of the line behind that comma.
proof fn declared_keys_unfold(line: Seq<char>, i: int)
    requires
        0 <= i <= line.len(),
        forall|j: int| 0 <= j < i ==> #[trigger] line[j] != ',',
        i < line.len() ==> line[i] == ',',
    ensures
        i < line.len() ==> declared_keys(line) == kept(trimmed(line.take(i))) + declared_keys(
            line.skip(i + 1),
        ),
        i == line.len() ==> declared_keys(line) == kept(trimmed(line)),
{
    let trim = |p: Seq<char>| trimmed(p);
    let keep = |key: Seq<char>| key.len() > 0;
    first_comma_at(line, i);
    if i < line.len() {
        let head = seq![line.take(i)];
        let tail = pieces(line.skip(i + 1));
        assert(pieces(line) == head + tail);
        assert((head + tail).map_values(trim) =~= head.map_values(trim) + tail.map_values(trim));
        Seq::filter_distributes_over_add(head.map_values(trim), tail.map_values(trim), keep);
        declared_keys_of_one(line.take(i));
    } else {
        assert(pieces(line) == seq![line]);
        declared_keys_of_one(line);
    }
}

/// Reads the measurement names that a line of text declares.
pub fn parse_spec_keys(line: &str) -> (keys: Vec<String>)
    ensures
        keys.deep_view() == declared_keys(line@),
{
    let n = line.unicode_len();
    let mut keys: Vec<String> = Vec::new();
    let mut start: usize = 0;
    let mut i: usize = 0;
    assert(line@.skip(0) =~= line@);
    assert(keys.deep_view() =~= Seq::<Seq<char>>::empty());
    while i < n
        invariant
            n == line@.len(),
            start <= i <= n,
            forall|j: int| start <= j < i ==> #[trigger] line@[j] != ',',
            declared_keys(line@) == keys.deep_view() + declared_keys(line@.skip(start as int)),
        decreases n - i,
    {
        if line.get_char(i) == ',' {
            let bounds = trim_bounds(line, start, i);
            let ghost before = keys.deep_view();
            let ghost rest = line@.skip(start as int);
            proof {
                assert forall|j: int| 0 <= j < i - start implies #[trigger] rest[j] != ',' by {
                    assert(rest[j] == line@[start + j]);
                }
                declared_keys_unfold(rest, i - start);
                assert(rest.take(i - start) =~= line@.subrange(start as int, i as int));
                assert(rest.skip(i - start + 1) =~= line@.skip(i + 1));
            }
            if bounds.0 < bounds.1 {
                let key = line.substring_char(bounds.0, bounds.1).to_string();
                keys.push(key);
                assert(keys.deep_view() =~= before + seq![key@]);
            }
            assert(keys.deep_view() =~= before + kept(trimmed(rest.take(i - start))));
            start = i + 1;
        }
        i += 1;
    }
    let bounds = trim_bounds(line, start, n);
    let ghost before = keys.deep_view();
    let ghost rest = line@.skip(start as int);
    proof {
        assert forall|j: int| 0 <= j < n - start implies #[trigger] rest[j] != ',' by {
            assert(rest[j] == line@[start + j]);
        }
        declared_keys_unfold(rest, n - start);
        assert(rest =~= line@.subrange(start as int, n as int));
    }
    if bounds.0 < bounds.1 {
        let key = line.substring_char(bounds.0, bounds.1).to_string();
        keys.push(key);
        assert(keys.deep_view() =~= before + seq![key@]);
    }
    assert(keys.deep_view() =~= before + kept(trimmed(rest)));
    keys
}

/// The names of a list written one after the other with `", "` between
/// them.
pub open spec fn listed(keys: Seq<Seq<char>>) -> Seq<char>
    decreases keys.len(),
{
    if keys.len() == 0 {
        Seq::empty()
    } else if keys.len() == 1 {
        keys[0]
    } else {
        listed(keys.drop_last()) + ", "@ + keys.last()
    }
}

/// How a product type is shown: its name, then its measurement names in
/// square brackets.
pub open spec fn label_of(name: Seq<char>, keys: Seq<Seq<char>>) -> Seq<char> {
    name + " ["@ + listed(keys) + "]"@
}

/// Writes the names of a list one after the other with `", "` between them.
pub fn list_keys(keys: &Vec<String>) -> (text: String)
    ensures
        text@ == listed(keys.deep_view()),
{
    let mut text = String::new();
    let mut i: usize = 0;
    assert(keys.deep_view().take(0) =~= Seq::<Seq<char>>::empty());
    while i < keys.len()
        invariant
            i <= keys.len(),
            text@ == listed(keys.deep_view().take(i as int)),
        decreases keys.len() - i,
    {
        let ghost done = keys.deep_view().take(i as int);
        let ghost next = keys.deep_view().take(i + 1);
        proof {
            assert(next.drop_last() =~= done);
            assert(next.last() == keys[i as int]@);
        }
        if i > 0 {
            text.append(", ");
        } else {
            assert(text@ + keys[i as int]@ =~= keys[i as int]@);
        }
        text.append(keys[i].as_str());
        i += 1;
    }
    assert(keys.deep_view().take(keys.len() as int) =~= keys.deep_view());
    text
}

/// The text that shows a product type.
pub fn type_label(name: &str, keys: &Vec<String>) -> (text: String)
    ensures
        text@ == label_of(name@, keys.deep_view()),
{
    let mut text = name.to_string();
    text.append(" [");
    let list = list_keys(keys);
    text.append(list.as_str());
    text.append("]");
    text
}

} // verus!
