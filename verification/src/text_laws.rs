//! What holds of the text helpers, of identifiers and of the map that they key.

use crate::error::LocalSendError;
use crate::id_map::IdMap;
use crate::outside::drawn;
use crate::protocol::{
    clone_text, DeviceInfo, DeviceType, FileId, Protocol, SessionId, Status, Token,
};
use crate::text::{
    characters, decimal, decimal_text, digit, eq_ignore_ascii_case, is_blank, same_text,
};
use vstd::prelude::*;

verus! {

/// The number that a row of decimal digits stands for.
pub open spec fn number(s: Seq<char>) -> int
    decreases s.len(),
{
    if s.len() == 0 {
        0
    } else {
        10 * number(s.drop_last()) + (s.last() as int - '0' as int)
    }
}

/// True when `s` is how `n` is written: decimal digits, the first of which is no
/// zero unless it stands alone.
pub open spec fn numeral(s: Seq<char>, n: int) -> bool {
    &&& s.len() > 0
    &&& forall|i: int| 0 <= i < s.len() ==> '0' <= #[trigger] s[i] <= '9'
    &&& s.len() > 1 ==> s[0] != '0'
    &&& number(s) == n
}

pub(crate) proof fn lemma_decimal_is_a_numeral(n: nat)
    ensures
        numeral(decimal(n), n as int),
        n > 0 ==> decimal(n)[0] != '0',
    decreases n,
{
    reveal_with_fuel(number, 2);
    if n >= 10 {
        lemma_decimal_is_a_numeral(n / 10);
        let head = decimal(n / 10);
        let s = decimal(n);
        assert(s.drop_last() =~= head);
        assert(s.last() == digit(n % 10));
        assert(s[0] == head[0]);
        assert forall|i: int| 0 <= i < s.len() implies '0' <= #[trigger] s[i] <= '9' by {
            if i < head.len() {
                assert(s[i] == head[i]);
            }
        }
    } else {
        assert(decimal(n).drop_last() =~= Seq::<char>::empty());
    }
}

proof fn lemma_number_is_positive(s: Seq<char>)
    requires
        s.len() > 0,
        s[0] != '0',
        forall|i: int| 0 <= i < s.len() ==> '0' <= #[trigger] s[i] <= '9',
    ensures
        number(s) > 0,
    decreases s.len(),
{
    reveal_with_fuel(number, 2);
    if s.len() > 1 {
        let head = s.drop_last();
        assert(head[0] == s[0]);
        assert forall|i: int| 0 <= i < head.len() implies '0' <= #[trigger] head[i] <= '9' by {
            assert(head[i] == s[i]);
        }
        lemma_number_is_positive(head);
    }
}

/// There is one way to write a number.
pub proof fn law_numerals_are_unique(s: Seq<char>, t: Seq<char>, n: int)
    requires
        numeral(s, n),
        numeral(t, n),
    ensures
        s == t,
    decreases s.len(),
{
    reveal_with_fuel(number, 2);
    let a = s.drop_last();
    let b = t.drop_last();
    assert('0' <= s[s.len() - 1] <= '9');
    assert('0' <= t[t.len() - 1] <= '9');
    if s.len() > 1 {
        assert forall|i: int| 0 <= i < a.len() implies '0' <= #[trigger] a[i] <= '9' by {
            assert(a[i] == s[i]);
        }
        assert(a[0] == s[0]);
        lemma_number_is_positive(a);
    } else {
        assert(a =~= Seq::<char>::empty());
    }
    if t.len() > 1 {
        assert forall|i: int| 0 <= i < b.len() implies '0' <= #[trigger] b[i] <= '9' by {
            assert(b[i] == t[i]);
        }
        assert(b[0] == t[0]);
        lemma_number_is_positive(b);
    } else {
        assert(b =~= Seq::<char>::empty());
    }
    assert(number(a) == number(b));
    assert(s.last() == t.last());
    if s.len() > 1 {
        law_numerals_are_unique(a, b, number(a));
    }
    assert(s =~= a.push(s.last()));
    assert(t =~= b.push(t.last()));
}

/// A number is written in decimal digits, without leading zeros, and reads back
/// as the same number.
pub proof fn law_numbers_are_written_in_decimal(n: u64, res: String)
    requires
        call_ensures(decimal_text, (n,), res),
    ensures
        numeral(res@, n as int),
{
    lemma_decimal_is_a_numeral(n as nat);
}

/// Two texts are the same where they hold the same characters in the same
/// order, and a text falls into just these characters.
pub proof fn law_texts_are_their_characters(a: &str, b: &str, same: bool, chars: Vec<char>)
    requires
        call_ensures(same_text, (a, b), same),
        call_ensures(characters, (a,), chars),
    ensures
        same == (a@.len() == b@.len() && forall|i: int|
            0 <= i < a@.len() ==> #[trigger] a@[i] == b@[i]),
        chars@ == a@,
{
    if a@.len() == b@.len() && forall|i: int| 0 <= i < a@.len() ==> #[trigger] a@[i] == b@[i] {
        assert(a@ =~= b@);
    }
}

/// True for a letter from `A` to `Z` and its small form.
pub open spec fn two_cases(upper: char, lower: char) -> bool {
    'A' <= upper <= 'Z' && lower as int == upper as int + 32
}

/// Two texts are equal up to case where at each place they hold the same
/// character, or the two cases of a letter from `a` to `z`.
pub proof fn law_case_is_all_that_may_differ(a: &str, b: &str, res: bool)
    requires
        call_ensures(eq_ignore_ascii_case, (a, b), res),
    ensures
        res == (a@.len() == b@.len() && forall|i: int|
            0 <= i < a@.len() ==> (#[trigger] a@[i] == b@[i] || two_cases(a@[i], b@[i])
                || two_cases(b@[i], a@[i]))),
{
    use_ascii_lower();
}

proof fn use_ascii_lower()
    ensures
        forall|c: char, d: char|
            (#[trigger] crate::text::ascii_lower(c) == #[trigger] crate::text::ascii_lower(d)) == (c
                == d || two_cases(c, d) || two_cases(d, c)),
{
}

/// A text is blank where each of its characters is white space: a tab, a line
/// break, a space or one of Unicode's other spaces. Letters, digits and signs
/// are not.
pub proof fn law_blank_texts_hold_white_space_only(s: &str, res: bool)
    requires
        call_ensures(is_blank, (s,), res),
    ensures
        s@.len() == 0 ==> res,
        res <==> forall|i: int|
            0 <= i < s@.len() ==> seq![
                0x9int,
                0xa,
                0xb,
                0xc,
                0xd,
                0x20,
                0x85,
                0xa0,
                0x1680,
                0x2000,
                0x2001,
                0x2002,
                0x2003,
                0x2004,
                0x2005,
                0x2006,
                0x2007,
                0x2008,
                0x2009,
                0x200a,
                0x2028,
                0x2029,
                0x202f,
                0x205f,
                0x3000,
            ].contains((#[trigger] s@[i]) as int),
{
    let spaces = seq![
        0x9int,
        0xa,
        0xb,
        0xc,
        0xd,
        0x20,
        0x85,
        0xa0,
        0x1680,
        0x2000,
        0x2001,
        0x2002,
        0x2003,
        0x2004,
        0x2005,
        0x2006,
        0x2007,
        0x2008,
        0x2009,
        0x200a,
        0x2028,
        0x2029,
        0x202f,
        0x205f,
        0x3000,
    ];
    assert forall|c: char| #[trigger] crate::text::white_space(c) == spaces.contains(c as int) by {
        if crate::text::white_space(c) {
            let n = c as int;
            let at = if n <= 0xd {
                n - 9
            } else if n == 0x20 {
                5
            } else if n == 0x85 {
                6
            } else if n == 0xa0 {
                7
            } else if n == 0x1680 {
                8
            } else if n <= 0x200a {
                n - 0x2000 + 9
            } else if n == 0x2028 {
                20
            } else if n == 0x2029 {
                21
            } else if n == 0x202f {
                22
            } else if n == 0x205f {
                23
            } else {
                24
            };
            assert(spaces[at] == n);
        }
    }
    assert forall|i: int| 0 <= i < s@.len() implies crate::text::white_space(#[trigger] s@[i])
        == spaces.contains(s@[i] as int) by {}
}

/// An identifier made of a text reads as that text, and so does its clone.
pub proof fn law_identifiers_are_their_texts(
    text: String,
    file: FileId,
    session: SessionId,
    token: Token,
    file_text: &str,
    session_text: &str,
    token_text: &str,
    empty: bool,
    maybe: Option<String>,
    copy: Option<String>,
)
    requires
        call_ensures(FileId::from_string, (text,), file),
        call_ensures(SessionId::from_string, (text,), session),
        call_ensures(Token::from_string, (text,), token),
        call_ensures(FileId::as_str, (&file,), file_text),
        call_ensures(SessionId::as_str, (&session,), session_text),
        call_ensures(Token::as_str, (&token,), token_text),
        call_ensures(SessionId::is_empty, (&session,), empty),
        call_ensures(clone_text, (&maybe,), copy),
    ensures
        file.text == text && session.text == text && token.text == text,
        file_text@ == text@ && session_text@ == text@ && token_text@ == text@,
        empty == (text@.len() == 0),
        copy == maybe,
{
}

/// The statuses have the numbers that HTTP gives them, and the protocols the
/// names that stand in a URL.
pub proof fn law_names_on_the_wire(status: Status, code: u16, protocol: Protocol, scheme: &str)
    requires
        call_ensures(Status::code, (status,), code),
        call_ensures(Protocol::scheme, (protocol,), scheme),
    ensures
        status == Status::Success <==> code == 200,
        status == Status::NoContent <==> code == 204,
        status == Status::BadRequest <==> code == 400,
        status == Status::Unauthorized <==> code == 401,
        status == Status::Forbidden <==> code == 403,
        status == Status::NotFound <==> code == 404,
        status == Status::Conflict <==> code == 409,
        status == Status::TooManyRequests <==> code == 429,
        status == Status::InternalServerError <==> code == 500,
        protocol == Protocol::Http ==> scheme@ == "http"@,
        protocol == Protocol::Https ==> scheme@ == "https"@,
{
}

/// A map gives back what was put in last, and nothing that was taken out; no
/// other entry notices. It starts with none.
pub proof fn law_maps_give_back_what_was_put_in<V>(
    fresh: IdMap<V>,
    map: &mut IdMap<V>,
    key: String,
    value: V,
    put: IdMap<V>,
    taken: Option<V>,
    gone: IdMap<V>,
    asked: &str,
    at_start: Option<&V>,
    had: Option<&V>,
    has: Option<&V>,
    left: Option<&V>,
    found: bool,
    again: &mut IdMap<V>,
    name: &str,
)
    requires
        call_ensures(IdMap::<V>::new, (), fresh),
        call_ensures(IdMap::<V>::get, (&fresh, asked), at_start),
        call_ensures(IdMap::<V>::insert, (map, key, value), ()),
        *final(map) == put,
        *old(again) == put,
        name@ == key@,
        call_ensures(IdMap::<V>::remove, (again, name), taken),
        *final(again) == gone,
        call_ensures(IdMap::<V>::get, (&*old(map), asked), had),
        call_ensures(IdMap::<V>::get, (&put, asked), has),
        call_ensures(IdMap::<V>::get, (&gone, asked), left),
        call_ensures(IdMap::<V>::contains_key, (&put, asked), found),
    ensures
        at_start is None,
        asked@ == key@ ==> has == Some(&value) && left is None,
        asked@ != key@ ==> has == had && left == had,
        found == (has is Some),
        taken == Some(value),
{
}

/// A map counts its entries, and each of them stands at one place: the entry at
/// a place is found under the identifier at that place, two places have two
/// identifiers, and whatever is found stands somewhere.
pub proof fn law_maps_list_each_entry_once<V>(
    map: IdMap<V>,
    n: usize,
    empty: bool,
    i: usize,
    j: usize,
    first: &String,
    second: &String,
    value: &V,
    asked: &str,
    found: Option<&V>,
)
    requires
        call_ensures(IdMap::<V>::len, (&map,), n),
        call_ensures(IdMap::<V>::is_empty, (&map,), empty),
        i < n,
        j < n,
        call_ensures(IdMap::<V>::key_at, (&map, i), first),
        call_ensures(IdMap::<V>::key_at, (&map, j), second),
        call_ensures(IdMap::<V>::value_at, (&map, i), value),
        call_ensures(IdMap::<V>::get, (&map, asked), found),
    ensures
        !empty,
        i != j ==> first@ != second@,
        asked@ == first@ ==> found == Some(value),
        found is Some ==> exists|k: int| 0 <= k < n && #[trigger] map.keys()[k] == asked@,
{
    if found is Some {
        assert(map.keys().to_set().contains(asked@));
    }
    assert(map.keys().to_set().contains(map.keys()[i as int]));
}

/// New identifiers and tokens are drawn, each by itself.
pub proof fn law_new_identifiers_are_drawn(file: FileId, session: SessionId, token: Token)
    requires
        call_ensures(FileId::new, (), file),
        call_ensures(SessionId::new, (), session),
        call_ensures(Token::new, (), token),
    ensures
        drawn(file.text) && drawn(session.text) && drawn(token.text),
        file.text@.len() == 36 && session.text@.len() == 36 && token.text@.len() == 36,
{
}

/// A failure carries the words and the status that it was made of.
pub proof fn law_failures_carry_their_words(
    words: &str,
    status: u16,
    network: LocalSendError,
    answer: LocalSendError,
    state: LocalSendError,
    other: LocalSendError,
)
    requires
        call_ensures(LocalSendError::network, (words,), network),
        call_ensures(LocalSendError::http_failed, (status, words), answer),
        call_ensures(LocalSendError::invalid_state, (words,), state),
        call_ensures(LocalSendError::other, (words,), other),
    ensures
        network is Network && network->Network_message@ == words@,
        answer is HttpFailed && answer->HttpFailed_message@ == words@ && answer->HttpFailed_status
            == status,
        state is InvalidState && state->InvalidState_message@ == words@,
        other is Other && other->Other_message@ == words@,
{
}

/// A device that is described for the first time has a drawn fingerprint, offers
/// no downloads and knows no address of its own.
pub proof fn law_new_devices_are_what_was_asked(
    alias: String,
    port: u16,
    protocol: Protocol,
    device: DeviceInfo,
)
    requires
        call_ensures(DeviceInfo::new, (alias, port, protocol), device),
    ensures
        device.alias == alias,
        device.port == port,
        device.protocol == protocol,
        device.version@ == "2.1"@,
        device.device_model is None,
        device.device_type == Some(DeviceType::Desktop),
        drawn(device.fingerprint),
        device.fingerprint@.len() == 36,
        !device.download,
        device.ip is None,
{
}

} // verus!
