//! The body of the credentials form: `key=value` pairs joined by `&`, with
//! `+` standing for a space.

use crate::text::{chars_of, same_text, text_of, text_view};
use vstd::prelude::*;

verus! {

/// The pieces of `text` between the occurrences of `sep`, in order. A text
/// without `sep` is one piece; two adjacent separators enclose an empty one.
pub open spec fn split(text: Seq<char>, sep: char) -> Seq<Seq<char>>
    decreases text.len(),
{
    if text.len() == 0 {
        seq![Seq::<char>::empty()]
    } else {
        let before = split(text.drop_last(), sep);
        if text.last() == sep {
            before.push(Seq::<char>::empty())
        } else {
            before.drop_last().push(before.last().push(text.last()))
        }
    }
}

/// The pieces put together again, with `sep` between neighbours.
pub open spec fn join(pieces: Seq<Seq<char>>, sep: char) -> Seq<char>
    decreases pieces.len(),
{
    if pieces.len() == 0 {
        Seq::<char>::empty()
    } else if pieces.len() == 1 {
        pieces[0]
    } else {
        join(pieces.drop_last(), sep).push(sep) + pieces.last()
    }
}

/// `text` with every `+` turned into a space.
pub open spec fn plus_to_space(text: Seq<char>) -> Seq<char> {
    Seq::new(text.len(), |i: int| if text[i] == '+' { ' ' } else { text[i] })
}

/// The value that `pair` gives to `key`: the text between the first `=` and
/// the second (or the end), where the text before the first `=` is `key`.
pub open spec fn pair_value(pair: Seq<char>, key: Seq<char>) -> Option<Seq<char>> {
    let parts = split(pair, '=');
    if parts.len() >= 2 && parts[0] == key {
        Some(parts[1])
    } else {
        None
    }
}

/// The decoded value of the last pair that gives one to `key`.
pub open spec fn last_value(pairs: Seq<Seq<char>>, key: Seq<char>) -> Option<Seq<char>>
    decreases pairs.len(),
{
    if pairs.len() == 0 {
        None
    } else {
        match pair_value(pairs.last(), key) {
            Some(value) => Some(plus_to_space(value)),
            None => last_value(pairs.drop_last(), key),
        }
    }
}

/// Network name and password of a form body, where it holds both.
pub open spec fn form_fields(body: Seq<char>) -> Option<(Seq<char>, Seq<char>)> {
    let pairs = split(body, '&');
    match (last_value(pairs, "ssid"@), last_value(pairs, "password"@)) {
        (Some(ssid), Some(password)) => Some((ssid, password)),
        _ => None,
    }
}

/// Whether no piece holds `sep`.
pub open spec fn free_of(pieces: Seq<Seq<char>>, sep: char) -> bool {
    forall|i: int| 0 <= i < pieces.len() ==> !(#[trigger] pieces[i]).contains(sep)
}

/// Splitting loses nothing: there is at least one piece, no piece holds the
/// separator, and the pieces joined by it give the text back.
pub proof fn lemma_split_join(text: Seq<char>, sep: char)
    ensures
        split(text, sep).len() >= 1,
        free_of(split(text, sep), sep),
        join(split(text, sep), sep) == text,
    decreases text.len(),
{
    if text.len() > 0 {
        let front = text.drop_last();
        let before = split(front, sep);
        lemma_split_join(front, sep);
        if text.last() == sep {
            let after = before.push(Seq::<char>::empty());
            assert(after.drop_last() == before);
            assert(join(after, sep) == front.push(sep) + Seq::<char>::empty());
            assert(front.push(sep) == text);
        } else {
            let tail = before.last().push(text.last());
            let after = before.drop_last().push(tail);
            assert(after.drop_last() == before.drop_last());
            assert forall|i: int| 0 <= i < after.len() implies !(#[trigger] after[i]).contains(
                sep,
            ) by {
                if i < after.len() - 1 {
                    assert(after[i] == before[i]);
                } else {
                    assert(!before[i].contains(sep));
                    assert forall|k: int| 0 <= k < tail.len() implies tail[k] != sep by {
                        if k < tail.len() - 1 {
                            assert(before[i][k] == tail[k]);
                            assert(before[i].contains(tail[k]));
                        }
                    }
                }
            }
            if before.len() == 1 {
                assert(join(after, sep) == tail);
                assert(front.push(text.last()) == text);
            } else {
                let head = join(before.drop_last(), sep).push(sep);
                assert(join(after, sep) == head + tail);
                assert(head + tail == (head + before.last()).push(text.last()));
                assert(front.push(text.last()) == text);
            }
        }
    }
}

/// A piece without the separator, put behind a text and a separator, comes
/// out of the split as one more piece.
pub proof fn lemma_split_extend(head: Seq<char>, piece: Seq<char>, sep: char)
    requires
        !piece.contains(sep),
    ensures
        split(head.push(sep) + piece, sep) == split(head, sep).push(piece),
        split(piece, sep) == seq![piece],
    decreases piece.len(),
{
    let whole = head.push(sep) + piece;
    if piece.len() == 0 {
        assert(whole == head.push(sep));
        assert(whole.drop_last() == head);
        assert(piece == Seq::<char>::empty());
    } else {
        let shorter = piece.drop_last();
        assert forall|k: int| 0 <= k < shorter.len() implies shorter[k] != sep by {
            assert(piece[k] == shorter[k]);
            assert(piece.contains(shorter[k]));
        }
        assert(!shorter.contains(sep));
        lemma_split_extend(head, shorter, sep);
        assert(whole.drop_last() == head.push(sep) + shorter);
        assert(whole.last() == piece.last());
        assert(piece.contains(piece.last())) by {
            assert(piece[piece.len() - 1] == piece.last());
        }
        assert(shorter.push(piece.last()) == piece);
        let before = split(head, sep).push(shorter);
        assert(before.drop_last() == split(head, sep));
        assert(seq![shorter].drop_last().push(shorter.push(piece.last())) == seq![piece]);
    }
}

/// The split is the only way to cut a text into separator-free pieces: any
/// such pieces, joined and split again, come back as they were.
pub proof fn lemma_split_unique(pieces: Seq<Seq<char>>, sep: char)
    requires
        pieces.len() >= 1,
        free_of(pieces, sep),
    ensures
        split(join(pieces, sep), sep) == pieces,
    decreases pieces.len(),
{
    if pieces.len() == 1 {
        lemma_split_extend(Seq::<char>::empty(), pieces[0], sep);
        assert(seq![pieces[0]] == pieces);
    } else {
        let front = pieces.drop_last();
        assert forall|i: int| 0 <= i < front.len() implies !(#[trigger] front[i]).contains(
            sep,
        ) by {
            assert(front[i] == pieces[i]);
        }
        lemma_split_unique(front, sep);
        assert(!pieces.last().contains(sep)) by {
            assert(pieces[pieces.len() - 1] == pieces.last());
        }
        lemma_split_extend(join(front, sep), pieces.last(), sep);
        assert(front.push(pieces.last()) == pieces);
    }
}

/// Whether `text` holds neither of the form's separators.
pub open spec fn plain(text: Seq<char>) -> bool {
    !text.contains('&') && !text.contains('=')
}

/// A pair of a separator-free key and a separator-free value gives that
/// value to that key, and none to any other key.
pub proof fn lemma_pair_value(key: Seq<char>, value: Seq<char>, other: Seq<char>)
    requires
        plain(key),
        plain(value),
    ensures
        !(key.push('=') + value).contains('&'),
        pair_value(key.push('=') + value, key) == Some(value),
        other != key ==> pair_value(key.push('=') + value, other) is None,
{
    let pair = key.push('=') + value;
    let parts = seq![key, value];
    assert(free_of(parts, '='));
    assert(parts.drop_last() == seq![key]);
    assert(join(seq![key], '=') == key);
    assert(join(parts, '=') == pair);
    lemma_split_unique(parts, '=');
    assert forall|k: int| 0 <= k < pair.len() implies pair[k] != '&' by {
        if k < key.len() {
            assert(key.contains(key[k]));
        } else if k > key.len() {
            assert(value.contains(value[k - key.len() - 1]));
        }
    }
}

/// The well-formed body: `ssid=`, a name, `&password=`, a password, with no
/// separator inside name or password. It yields the two, each with its
/// plus signs turned into spaces.
pub proof fn lemma_plain_form(name: Seq<char>, secret: Seq<char>)
    requires
        plain(name),
        plain(secret),
    ensures
        form_fields("ssid="@ + name + "&password="@ + secret) == Some(
            (plus_to_space(name), plus_to_space(secret)),
        ),
{
    reveal_strlit("ssid=");
    reveal_strlit("&password=");
    reveal_strlit("ssid");
    reveal_strlit("password");
    let body = "ssid="@ + name + "&password="@ + secret;
    let first = "ssid"@.push('=') + name;
    let second = "password"@.push('=') + secret;
    assert(plain("ssid"@));
    assert(plain("password"@));
    assert("ssid"@ != "password"@) by {
        assert("ssid"@.len() != "password"@.len());
    }
    lemma_pair_value("ssid"@, name, "password"@);
    lemma_pair_value("password"@, secret, "ssid"@);
    let pairs = seq![first, second];
    assert(free_of(pairs, '&'));
    assert(pairs.drop_last() == seq![first]);
    assert(join(seq![first], '&') == first);
    assert(join(pairs, '&') == first.push('&') + second);
    assert(first.push('&') + second == body);
    lemma_split_unique(pairs, '&');
    assert(split(body, '&') == pairs);
    assert(pairs.last() == second);
    assert(seq![first].last() == first);
    assert(last_value(seq![first], "ssid"@) == Some(plus_to_space(name)));
    assert(last_value(pairs, "ssid"@) == Some(plus_to_space(name)));
    assert(last_value(pairs, "password"@) == Some(plus_to_space(secret)));
}

/// The views of a list of pieces.
pub open spec fn piece_views(pieces: Seq<Vec<char>>) -> Seq<Seq<char>> {
    Seq::new(pieces.len(), |i: int| pieces[i]@)
}

/// Splits at every `sep`.
pub fn split_on(text: &Vec<char>, sep: char) -> (r: Vec<Vec<char>>)
    ensures
        piece_views(r@) == split(text@, sep),
{
    let mut done: Vec<Vec<char>> = Vec::new();
    let mut current: Vec<char> = Vec::new();
    let mut i: usize = 0;
    while i < text.len()
        invariant
            i <= text.len(),
            piece_views(done@).push(current@) == split(text@.take(i as int), sep),
        decreases text.len() - i,
    {
        let c = text[i];
        proof {
            let upto = text@.take(i + 1);
            assert(upto.drop_last() == text@.take(i as int));
            assert(upto.last() == c);
        }
        if c == sep {
            proof {
                assert(piece_views(done@.push(current)) == piece_views(done@).push(current@));
            }
            done.push(current);
            current = Vec::new();
        } else {
            proof {
                let before = piece_views(done@).push(current@);
                assert(before.drop_last() == piece_views(done@));
            }
            current.push(c);
        }
        i += 1;
    }
    proof {
        assert(text@.take(text@.len() as int) == text@);
        assert(piece_views(done@.push(current)) == piece_views(done@).push(current@));
    }
    done.push(current);
    done
}

/// Turns every `+` into a space.
pub fn decode_plus(chars: &Vec<char>) -> (r: Vec<char>)
    ensures
        r@ == plus_to_space(chars@),
{
    let mut out: Vec<char> = Vec::new();
    let mut i: usize = 0;
    while i < chars.len()
        invariant
            i <= chars.len(),
            out@ == plus_to_space(chars@).take(i as int),
        decreases chars.len() - i,
    {
        let c = chars[i];
        proof {
            let all = plus_to_space(chars@);
            assert(all.take(i + 1) == all.take(i as int).push(all[i as int]));
        }
        if c == '+' {
            out.push(' ');
        } else {
            out.push(c);
        }
        i += 1;
    }
    proof {
        let all = plus_to_space(chars@);
        assert(all.take(all.len() as int) == all);
    }
    out
}

/// The value that one pair gives to `key`, undecoded.
pub fn value_for(pair: &Vec<char>, key: &str) -> (r: Option<Vec<char>>)
    ensures
        match r {
            Some(value) => pair_value(pair@, key@) == Some(value@),
            None => pair_value(pair@, key@) is None,
        },
{
    let mut parts = split_on(pair, '=');
    proof {
        assert(piece_views(parts@).len() == parts@.len());
    }
    if parts.len() >= 2 && same_text(&parts[0], key) {
        proof {
            assert(piece_views(parts@)[0] == parts@[0]@);
            assert(piece_views(parts@)[1] == parts@[1]@);
        }
        Some(parts.swap_remove(1))
    } else {
        proof {
            if parts.len() >= 2 {
                assert(piece_views(parts@)[0] == parts@[0]@);
            }
        }
        None
    }
}

/// Reads network name and password out of a form body. A pair without `=`
/// and a pair with another key are passed over; of several pairs with one
/// key the last counts; the body must hold both keys.
pub fn parse_form_data(body: &str) -> (r: Option<(String, String)>)
    ensures
        match r {
            Some((ssid, password)) => form_fields(body@) == Some((ssid@, password@)),
            None => form_fields(body@) is None,
        },
{
    let mut ssid: Option<String> = None;
    let mut password: Option<String> = None;
    let chars = chars_of(body);
    let pairs = split_on(&chars, '&');
    let ghost all = piece_views(pairs@);
    let mut i: usize = 0;
    while i < pairs.len()
        invariant
            i <= pairs.len(),
            all == piece_views(pairs@),
            text_view(ssid) == last_value(all.take(i as int), "ssid"@),
            text_view(password) == last_value(all.take(i as int), "password"@),
        decreases pairs.len() - i,
    {
        proof {
            let upto = all.take(i + 1);
            assert(upto.drop_last() == all.take(i as int));
            assert(upto.last() == pairs@[i as int]@);
        }
        match value_for(&pairs[i], "ssid") {
            Some(value) => {
                ssid = Some(text_of(&decode_plus(&value)));
            },
            None => {},
        }
        match value_for(&pairs[i], "password") {
            Some(value) => {
                password = Some(text_of(&decode_plus(&value)));
            },
            None => {},
        }
        i += 1;
    }
    proof {
        assert(all.take(all.len() as int) == all);
    }
    match (ssid, password) {
        (Some(s), Some(p)) => Some((s, p)),
        _ => None,
    }
}

} // verus!
