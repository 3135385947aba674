//! Query pairs and their text form.
use vstd::prelude::*;
use vstd::utf8::encode_utf8;

verus! {

/// The text view of a list of query pairs.
pub open spec fn pairs_view(v: Seq<(String, String)>) -> Seq<(Seq<char>, Seq<char>)> {
    v.map_values(|p: (String, String)| (p.0@, p.1@))
}

/// Appends one pair to a list of query pairs.
pub fn push_pair(out: &mut Vec<(String, String)>, key: &str, value: String)
    ensures
        pairs_view(final(out)@) == pairs_view(old(out)@).push((key@, value@)),
{
    out.push((String::from_str(key), value));
    assert(pairs_view(out@) =~= pairs_view(old(out)@).push((key@, value@)));
}

/// The decimal digit for `d`, which is below ten.
pub open spec fn digit(d: nat) -> char {
    if d == 0 {
        '0'
    } else if d == 1 {
        '1'
    } else if d == 2 {
        '2'
    } else if d == 3 {
        '3'
    } else if d == 4 {
        '4'
    } else if d == 5 {
        '5'
    } else if d == 6 {
        '6'
    } else if d == 7 {
        '7'
    } else if d == 8 {
        '8'
    } else {
        '9'
    }
}

/// The decimal text of `n`, without leading zeros.
pub open spec fn decimal(n: nat) -> Seq<char>
    decreases n,
{
    if n < 10 {
        seq![digit(n)]
    } else {
        decimal(n / 10).push(digit(n % 10))
    }
}

fn digit_text(d: u64) -> (r: &'static str)
    requires
        d < 10,
    ensures
        r@ == seq![digit(d as nat)],
{
    proof {
        reveal_strlit("0");
        reveal_strlit("1");
        reveal_strlit("2");
        reveal_strlit("3");
        reveal_strlit("4");
        reveal_strlit("5");
        reveal_strlit("6");
        reveal_strlit("7");
        reveal_strlit("8");
        reveal_strlit("9");
    }
    let r = if d == 0 {
        "0"
    } else if d == 1 {
        "1"
    } else if d == 2 {
        "2"
    } else if d == 3 {
        "3"
    } else if d == 4 {
        "4"
    } else if d == 5 {
        "5"
    } else if d == 6 {
        "6"
    } else if d == 7 {
        "7"
    } else if d == 8 {
        "8"
    } else {
        "9"
    };
    assert(r@ =~= seq![digit(d as nat)]);
    r
}

/// The decimal text of a number.
pub fn decimal_text(n: u64) -> (r: String)
    ensures
        r@ == decimal(n as nat),
    decreases n,
{
    if n < 10 {
        String::from_str(digit_text(n))
    } else {
        let mut r = decimal_text(n / 10);
        r.append(digit_text(n % 10));
        r
    }
}

/// Items with `sep` between each two of them.
pub open spec fn joined(items: Seq<Seq<char>>, sep: char) -> Seq<char>
    decreases items.len(),
{
    if items.len() == 0 {
        Seq::empty()
    } else if items.len() == 1 {
        items[0]
    } else {
        joined(items.drop_last(), sep) + seq![sep] + items.last()
    }
}

/// Items joined with commas: `a,b,c`.
pub open spec fn comma_joined(items: Seq<Seq<char>>) -> Seq<char> {
    joined(items, ',')
}

/// The text views of a list of strings.
pub open spec fn texts_view(v: Seq<String>) -> Seq<Seq<char>> {
    v.map_values(|s: String| s@)
}

/// Joins texts with a one-character separator.
pub fn join_texts(items: &Vec<String>, sep: &str) -> (r: String)
    requires
        sep@.len() == 1,
    ensures
        r@ == joined(texts_view(items@), sep@[0]),
{
    let mut r = String::new();
    let mut i: usize = 0;
    while i < items.len()
        invariant
            i <= items.len(),
            sep@.len() == 1,
            r@ == joined(texts_view(items@).take(i as int), sep@[0]),
        decreases items.len() - i,
    {
        let ghost before = texts_view(items@).take(i as int);
        assert(texts_view(items@).take(i as int + 1).drop_last() =~= before);
        if i > 0 {
            r.append(sep);
            assert(sep@ =~= seq![sep@[0]]);
        } else {
            assert(texts_view(items@).take(1) =~= seq![items@[0]@]);
        }
        r.append(items[i].as_str());
        i = i + 1;
        assert(r@ =~= joined(texts_view(items@).take(i as int), sep@[0]));
    }
    assert(texts_view(items@).take(i as int) =~= texts_view(items@));
    r
}

/// Joins texts with commas, the form a list-valued query field takes.
pub fn join_commas(items: &Vec<String>) -> (r: String)
    ensures
        r@ == comma_joined(texts_view(items@)),
{
    proof {
        reveal_strlit(",");
    }
    join_texts(items, ",")
}

/// Three items joined with commas read `a,b,c`: the delimiter is a plain
/// comma between the items and nowhere else.
pub proof fn comma_list_of_three(a: Seq<char>, b: Seq<char>, c: Seq<char>)
    ensures
        comma_joined(seq![a, b, c]) == a + seq![','] + b + seq![','] + c,
{
    assert(seq![a, b, c].drop_last() =~= seq![a, b]);
    assert(seq![a, b].drop_last() =~= seq![a]);
    reveal_with_fuel(joined, 3);
    assert(comma_joined(seq![a, b, c]) =~= a + seq![','] + b + seq![','] + c);
}

/// The text of an optional string.
pub open spec fn opt_text(o: Option<String>) -> Option<Seq<char>> {
    match o {
        Some(s) => Some(s@),
        None => None,
    }
}

/// The texts of an optional list of strings.
pub open spec fn opt_texts(o: Option<Vec<String>>) -> Option<Seq<Seq<char>>> {
    match o {
        Some(v) => Some(texts_view(v@)),
        None => None,
    }
}

/// The contents of an optional vector.
pub open spec fn opt_seq<T>(o: Option<Vec<T>>) -> Option<Seq<T>> {
    match o {
        Some(v) => Some(v@),
        None => None,
    }
}

/// The pair of a text field, left out when the text is empty.
pub open spec fn text_pair(key: Seq<char>, value: Seq<char>) -> Seq<(Seq<char>, Seq<char>)> {
    if value.len() == 0 {
        Seq::empty()
    } else {
        seq![(key, value)]
    }
}

/// The pair of an optional text field, left out when absent.
pub open spec fn opt_text_pair(key: Seq<char>, value: Option<Seq<char>>) -> Seq<(Seq<char>, Seq<char>)> {
    match value {
        Some(v) => seq![(key, v)],
        None => Seq::empty(),
    }
}

/// The pair of an optional number, in decimal, left out when absent.
pub open spec fn opt_u32_pair(key: Seq<char>, value: Option<u32>) -> Seq<(Seq<char>, Seq<char>)> {
    match value {
        Some(n) => seq![(key, decimal(n as nat))],
        None => Seq::empty(),
    }
}

/// The pair of an optional small number, in decimal, left out when absent.
pub open spec fn opt_u16_pair(key: Seq<char>, value: Option<u16>) -> Seq<(Seq<char>, Seq<char>)> {
    match value {
        Some(n) => seq![(key, decimal(n as nat))],
        None => Seq::empty(),
    }
}

/// The text of a flag.
pub open spec fn bool_text(b: bool) -> Seq<char> {
    if b {
        "true"@
    } else {
        "false"@
    }
}

/// The pair of an optional flag, `true` or `false`, left out when absent.
pub open spec fn opt_bool_pair(key: Seq<char>, value: Option<bool>) -> Seq<(Seq<char>, Seq<char>)> {
    match value {
        Some(b) => seq![(key, bool_text(b))],
        None => Seq::empty(),
    }
}

/// The pair of an optional list, its items joined with commas, left out
/// when absent.
pub open spec fn opt_list_pair(key: Seq<char>, value: Option<Seq<Seq<char>>>) -> Seq<(Seq<char>, Seq<char>)> {
    match value {
        Some(items) => seq![(key, comma_joined(items))],
        None => Seq::empty(),
    }
}

/// Appends the pair of a text field unless the text is empty.
pub fn push_text(out: &mut Vec<(String, String)>, key: &str, value: &String)
    ensures
        pairs_view(final(out)@) == pairs_view(old(out)@) + text_pair(key@, value@),
{
    if !value.as_str().is_empty() {
        push_pair(out, key, value.clone());
    }
    assert(pairs_view(out@) =~= pairs_view(old(out)@) + text_pair(key@, value@));
}

/// Appends the pair of an optional text field when present.
pub fn push_opt_text(out: &mut Vec<(String, String)>, key: &str, value: &Option<String>)
    ensures
        pairs_view(final(out)@) == pairs_view(old(out)@) + opt_text_pair(key@, opt_text(*value)),
{
    if let Some(v) = value {
        push_pair(out, key, v.clone());
    }
    assert(pairs_view(out@) =~= pairs_view(old(out)@) + opt_text_pair(key@, opt_text(*value)));
}

/// Appends the pair of an optional number when present.
pub fn push_opt_u32(out: &mut Vec<(String, String)>, key: &str, value: Option<u32>)
    ensures
        pairs_view(final(out)@) == pairs_view(old(out)@) + opt_u32_pair(key@, value),
{
    if let Some(n) = value {
        push_pair(out, key, decimal_text(n as u64));
    }
    assert(pairs_view(out@) =~= pairs_view(old(out)@) + opt_u32_pair(key@, value));
}

/// Appends the pair of an optional small number when present.
pub fn push_opt_u16(out: &mut Vec<(String, String)>, key: &str, value: Option<u16>)
    ensures
        pairs_view(final(out)@) == pairs_view(old(out)@) + opt_u16_pair(key@, value),
{
    if let Some(n) = value {
        push_pair(out, key, decimal_text(n as u64));
    }
    assert(pairs_view(out@) =~= pairs_view(old(out)@) + opt_u16_pair(key@, value));
}

/// Appends the pair of an optional flag when present.
pub fn push_opt_bool(out: &mut Vec<(String, String)>, key: &str, value: Option<bool>)
    ensures
        pairs_view(final(out)@) == pairs_view(old(out)@) + opt_bool_pair(key@, value),
{
    if let Some(b) = value {
        let text = if b {
            String::from_str("true")
        } else {
            String::from_str("false")
        };
        push_pair(out, key, text);
    }
    assert(pairs_view(out@) =~= pairs_view(old(out)@) + opt_bool_pair(key@, value));
}

/// Appends the pair of an optional list when present.
pub fn push_opt_list(out: &mut Vec<(String, String)>, key: &str, value: &Option<Vec<String>>)
    ensures
        pairs_view(final(out)@) == pairs_view(old(out)@) + opt_list_pair(key@, opt_texts(*value)),
{
    if let Some(items) = value {
        push_pair(out, key, join_commas(items));
    }
    assert(pairs_view(out@) =~= pairs_view(old(out)@) + opt_list_pair(key@, opt_texts(*value)));
}

/// Whether form encoding keeps a byte as it is: an ASCII letter or digit,
/// or one of `*`, `-`, `.` and `_`.
pub open spec fn form_kept(b: u8) -> bool {
    b == 42 || b == 45 || b == 46 || b == 95 || (48 <= b <= 57) || (65 <= b <= 90) || (97 <= b <= 122)
}

/// The uppercase hexadecimal digit for `d`, which is below 16.
pub open spec fn hex_digit(d: nat) -> char {
    if d < 10 {
        digit(d)
    } else if d == 10 {
        'A'
    } else if d == 11 {
        'B'
    } else if d == 12 {
        'C'
    } else if d == 13 {
        'D'
    } else if d == 14 {
        'E'
    } else {
        'F'
    }
}

/// How form encoding writes one byte: a kept byte as itself, a space as
/// `+`, any other byte as `%` and two uppercase hexadecimal digits.
pub open spec fn form_byte(b: u8) -> Seq<char> {
    if form_kept(b) {
        seq![b as char]
    } else if b == 32 {
        seq!['+']
    } else {
        seq!['%', hex_digit(b as nat / 16), hex_digit(b as nat % 16)]
    }
}

/// How form encoding writes a run of bytes.
pub open spec fn form_bytes(bytes: Seq<u8>) -> Seq<char>
    decreases bytes.len(),
{
    if bytes.len() == 0 {
        Seq::empty()
    } else {
        form_byte(bytes[0]) + form_bytes(bytes.drop_first())
    }
}

/// How form encoding writes a text: byte by byte, over its UTF-8 encoding.
pub open spec fn form_component(s: Seq<char>) -> Seq<char> {
    form_bytes(encode_utf8(s))
}

/// How form encoding writes a pair: `name=value`.
pub open spec fn form_pair(p: (Seq<char>, Seq<char>)) -> Seq<char> {
    form_component(p.0) + seq!['='] + form_component(p.1)
}

/// How a list field is written: its name, `=`, and the items, each form
/// encoded on its own, joined with a literal `,`.
pub open spec fn list_text(key: Seq<char>, items: Seq<Seq<char>>) -> Seq<char> {
    form_component(key) + seq!['='] + comma_joined(items.map_values(|s: Seq<char>| form_component(s)))
}

/// A list of three items is written `a,b,c` after its name: the commas
/// between the items stay as they are, while each item is form encoded.
pub proof fn list_text_of_three(key: Seq<char>, a: Seq<char>, b: Seq<char>, c: Seq<char>)
    ensures
        list_text(key, seq![a, b, c]) == form_component(key) + seq!['='] + form_component(a) + seq![',']
            + form_component(b) + seq![','] + form_component(c),
{
    let items = seq![a, b, c].map_values(|s: Seq<char>| form_component(s));
    assert(items =~= seq![form_component(a), form_component(b), form_component(c)]);
    comma_list_of_three(form_component(a), form_component(b), form_component(c));
}

/// The text of a query: its pieces joined with `&`.
pub open spec fn query_text_of(pieces: Seq<Seq<char>>) -> Seq<char> {
    joined(pieces, '&')
}

/// The piece of a text field, left out when the text is empty.
pub open spec fn text_piece(key: Seq<char>, value: Seq<char>) -> Seq<Seq<char>> {
    if value.len() == 0 {
        Seq::empty()
    } else {
        seq![form_pair((key, value))]
    }
}

/// The piece of an optional text field, left out when absent.
pub open spec fn opt_text_piece(key: Seq<char>, value: Option<Seq<char>>) -> Seq<Seq<char>> {
    match value {
        Some(v) => seq![form_pair((key, v))],
        None => Seq::empty(),
    }
}

/// The piece of an optional number, left out when absent.
pub open spec fn opt_u32_piece(key: Seq<char>, value: Option<u32>) -> Seq<Seq<char>> {
    match value {
        Some(n) => seq![form_pair((key, decimal(n as nat)))],
        None => Seq::empty(),
    }
}

/// The piece of an optional small number, left out when absent.
pub open spec fn opt_u16_piece(key: Seq<char>, value: Option<u16>) -> Seq<Seq<char>> {
    match value {
        Some(n) => seq![form_pair((key, decimal(n as nat)))],
        None => Seq::empty(),
    }
}

/// The piece of an optional flag, left out when absent.
pub open spec fn opt_bool_piece(key: Seq<char>, value: Option<bool>) -> Seq<Seq<char>> {
    match value {
        Some(b) => seq![form_pair((key, bool_text(b)))],
        None => Seq::empty(),
    }
}

/// The piece of an optional list, left out when absent.
pub open spec fn opt_list_piece(key: Seq<char>, value: Option<Seq<Seq<char>>>) -> Seq<Seq<char>> {
    match value {
        Some(items) => seq![list_text(key, items)],
        None => Seq::empty(),
    }
}

/// Relies on `url::form_urlencoded::byte_serialize`: it writes the UTF-8
/// bytes of a text as [`form_component`] states.
#[verifier::external_body]
fn form_encode_component(s: &str) -> (r: String)
    ensures
        r@ == form_component(s@),
{
    url::form_urlencoded::byte_serialize(s.as_bytes()).collect()
}

/// Writes a pair as `name=value`, each side form encoded.
pub fn pair_text(key: &str, value: &str) -> (r: String)
    ensures
        r@ == form_pair((key@, value@)),
{
    let mut r = form_encode_component(key);
    r.append("=");
    let v = form_encode_component(value);
    r.append(v.as_str());
    proof {
        reveal_strlit("=");
    }
    assert(r@ =~= form_pair((key@, value@)));
    r
}

/// Writes a list field: its name, `=`, and the items, each form encoded,
/// joined with commas.
pub fn list_field_text(key: &str, items: &Vec<String>) -> (r: String)
    ensures
        r@ == list_text(key@, texts_view(items@)),
{
    let mut encoded: Vec<String> = Vec::new();
    let mut i: usize = 0;
    while i < items.len()
        invariant
            i <= items.len(),
            encoded@.len() == i,
            forall|k: int| 0 <= k < i ==> #[trigger] encoded@[k]@ == form_component(items@[k]@),
        decreases items.len() - i,
    {
        encoded.push(form_encode_component(items[i].as_str()));
        i = i + 1;
    }
    assert(texts_view(encoded@) =~= texts_view(items@).map_values(|s: Seq<char>| form_component(s)));
    let mut r = form_encode_component(key);
    r.append("=");
    let joined_items = join_commas(&encoded);
    r.append(joined_items.as_str());
    proof {
        reveal_strlit("=");
    }
    assert(r@ =~= list_text(key@, texts_view(items@)));
    r
}

/// Appends the piece of a text field unless the text is empty.
pub fn push_text_piece(out: &mut Vec<String>, key: &str, value: &String)
    ensures
        texts_view(final(out)@) == texts_view(old(out)@) + text_piece(key@, value@),
{
    if !value.as_str().is_empty() {
        out.push(pair_text(key, value.as_str()));
    }
    assert(texts_view(out@) =~= texts_view(old(out)@) + text_piece(key@, value@));
}

/// Appends the piece of an optional text field when present.
pub fn push_opt_text_piece(out: &mut Vec<String>, key: &str, value: &Option<String>)
    ensures
        texts_view(final(out)@) == texts_view(old(out)@) + opt_text_piece(key@, opt_text(*value)),
{
    if let Some(v) = value {
        out.push(pair_text(key, v.as_str()));
    }
    assert(texts_view(out@) =~= texts_view(old(out)@) + opt_text_piece(key@, opt_text(*value)));
}

/// Appends the piece of an optional number when present.
pub fn push_opt_u32_piece(out: &mut Vec<String>, key: &str, value: Option<u32>)
    ensures
        texts_view(final(out)@) == texts_view(old(out)@) + opt_u32_piece(key@, value),
{
    if let Some(n) = value {
        let text = decimal_text(n as u64);
        out.push(pair_text(key, text.as_str()));
    }
    assert(texts_view(out@) =~= texts_view(old(out)@) + opt_u32_piece(key@, value));
}

/// Appends the piece of an optional small number when present.
pub fn push_opt_u16_piece(out: &mut Vec<String>, key: &str, value: Option<u16>)
    ensures
        texts_view(final(out)@) == texts_view(old(out)@) + opt_u16_piece(key@, value),
{
    if let Some(n) = value {
        let text = decimal_text(n as u64);
        out.push(pair_text(key, text.as_str()));
    }
    assert(texts_view(out@) =~= texts_view(old(out)@) + opt_u16_piece(key@, value));
}

/// Appends the piece of an optional flag when present.
pub fn push_opt_bool_piece(out: &mut Vec<String>, key: &str, value: Option<bool>)
    ensures
        texts_view(final(out)@) == texts_view(old(out)@) + opt_bool_piece(key@, value),
{
    if let Some(b) = value {
        proof {
            reveal_strlit("true");
            reveal_strlit("false");
        }
        let text = if b {
            "true"
        } else {
            "false"
        };
        out.push(pair_text(key, text));
    }
    assert(texts_view(out@) =~= texts_view(old(out)@) + opt_bool_piece(key@, value));
}

/// Appends the piece of an optional list when present.
pub fn push_opt_list_piece(out: &mut Vec<String>, key: &str, value: &Option<Vec<String>>)
    ensures
        texts_view(final(out)@) == texts_view(old(out)@) + opt_list_piece(key@, opt_texts(*value)),
{
    if let Some(items) = value {
        out.push(list_field_text(key, items));
    }
    assert(texts_view(out@) =~= texts_view(old(out)@) + opt_list_piece(key@, opt_texts(*value)));
}

/// Joins the pieces of a query with `&`.
pub fn join_pieces(pieces: &Vec<String>) -> (r: String)
    ensures
        r@ == query_text_of(texts_view(pieces@)),
{
    proof {
        reveal_strlit("&");
    }
    join_texts(pieces, "&")
}

} // verus!
