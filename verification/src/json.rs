//! A byte-level scanner for the two JSON response envelopes the backends
//! send. It validates the whole document and pulls out the one payload
//! string the adapters need. String contents are taken as written: an escape
//! sequence is carried through unchanged (a base64 payload never needs one).
//! Scalar tokens (numbers, `true`, `false`, `null`) are delimited, not
//! spelled out further.

use vstd::prelude::*;

verus! {

use vstd::string::StringSliceAdditionalSpecFns;

/// JSON whitespace.
pub open spec fn is_json_ws(b: u8) -> bool {
    b == 0x20 || b == 0x09 || b == 0x0a || b == 0x0d
}

/// A byte that ends a scalar token.
pub open spec fn is_delim(b: u8) -> bool {
    is_json_ws(b) || b == 0x2c || b == 0x7d || b == 0x5d || b == 0x22 || b == 0x7b || b == 0x5b
        || b == 0x3a
}

/// The first position at or after `i` that does not hold whitespace.
pub open spec fn spec_skip_ws(s: Seq<u8>, i: int) -> int
    decreases s.len() - i,
{
    if 0 <= i < s.len() && is_json_ws(s[i]) {
        spec_skip_ws(s, i + 1)
    } else {
        i
    }
}

/// The first position at or after `i` that ends a scalar token.
pub open spec fn spec_scalar_end(s: Seq<u8>, i: int) -> int
    decreases s.len() - i,
{
    if 0 <= i < s.len() && !is_delim(s[i]) {
        spec_scalar_end(s, i + 1)
    } else {
        i
    }
}

/// With `i` just after an opening quote: the position of the closing quote,
/// or `None` where the string never closes. A backslash carries the byte
/// after it through unexamined.
pub open spec fn spec_scan_string(s: Seq<u8>, i: int) -> Option<int>
    decreases s.len() - i,
{
    if !(0 <= i < s.len()) {
        None
    } else if s[i] == 0x22 {
        Some(i)
    } else if s[i] == 0x5c {
        if i + 2 <= s.len() {
            spec_scan_string(s, i + 2)
        } else {
            None
        }
    } else {
        spec_scan_string(s, i + 1)
    }
}

/// With `i` at the first byte of a JSON value: the position just after the
/// value, or `None` where no well-formed value starts there.
pub open spec fn spec_skip_value(s: Seq<u8>, i: int) -> Option<int>
    decreases s.len() - i, 0int,
{
    if !(0 <= i < s.len()) {
        None
    } else if s[i] == 0x22 {
        match spec_scan_string(s, i + 1) {
            Some(q) => Some(q + 1),
            None => None,
        }
    } else if s[i] == 0x7b {
        spec_obj_rest(s, i + 1)
    } else if s[i] == 0x5b {
        spec_arr_rest(s, i + 1)
    } else {
        let e = spec_scalar_end(s, i);
        if i < e <= s.len() {
            Some(e)
        } else {
            None
        }
    }
}

/// With `i` just after `{` or after a member's comma: the position just
/// after the object's closing brace, or `None`.
pub open spec fn spec_obj_rest(s: Seq<u8>, i: int) -> Option<int>
    decreases s.len() - i, 1int,
{
    if !(0 <= i <= s.len()) {
        None
    } else {
        let j = spec_skip_ws(s, i);
        if j < s.len() && s[j] == 0x7d {
            Some(j + 1)
        } else if j < s.len() && s[j] == 0x22 {
            match spec_scan_string(s, j + 1) {
                Some(q) => {
                    let m = spec_skip_ws(s, q + 1);
                    if m < s.len() && s[m] == 0x3a {
                        let v = spec_skip_ws(s, m + 1);
                        if i <= v <= s.len() {
                            match spec_skip_value(s, v) {
                                Some(e) => {
                                    let k = spec_skip_ws(s, e);
                                    if k < s.len() && s[k] == 0x2c {
                                        if i < k + 1 {
                                            spec_obj_rest(s, k + 1)
                                        } else {
                                            None
                                        }
                                    } else if k < s.len() && s[k] == 0x7d {
                                        Some(k + 1)
                                    } else {
                                        None
                                    }
                                },
                                None => None,
                            }
                        } else {
                            None
                        }
                    } else {
                        None
                    }
                },
                None => None,
            }
        } else {
            None
        }
    }
}

/// With `i` just after `[` or after an element's comma: the position just
/// after the array's closing bracket, or `None`.
pub open spec fn spec_arr_rest(s: Seq<u8>, i: int) -> Option<int>
    decreases s.len() - i, 1int,
{
    if !(0 <= i <= s.len()) {
        None
    } else {
        let j = spec_skip_ws(s, i);
        if j < s.len() && s[j] == 0x5d {
            Some(j + 1)
        } else if i <= j <= s.len() {
            match spec_skip_value(s, j) {
                Some(e) => {
                    let k = spec_skip_ws(s, e);
                    if k < s.len() && s[k] == 0x2c {
                        if i < k + 1 {
                            spec_arr_rest(s, k + 1)
                        } else {
                            None
                        }
                    } else if k < s.len() && s[k] == 0x5d {
                        Some(k + 1)
                    } else {
                        None
                    }
                },
                None => None,
            }
        } else {
            None
        }
    }
}

/// The int view of an optional pair of positions.
pub open spec fn opt_pair(o: Option<(usize, usize)>) -> Option<(int, int)> {
    match o {
        Some((a, b)) => Some((a as int, b as int)),
        None => None,
    }
}

/// Scans an object's members from `i` (just after `{` or a comma), looking
/// for the member named `key`. Yields the found value's range together with
/// the position just after the object, or `None` where the object is
/// malformed or names `key` twice.
pub open spec fn spec_obj_find(
    s: Seq<u8>,
    i: int,
    key: Seq<u8>,
    found: Option<(int, int)>,
) -> Option<(Option<(int, int)>, int)>
    decreases s.len() - i,
{
    if !(0 <= i <= s.len()) {
        None
    } else {
        let j = spec_skip_ws(s, i);
        if j < s.len() && s[j] == 0x7d {
            Some((found, j + 1))
        } else if j < s.len() && s[j] == 0x22 {
            match spec_scan_string(s, j + 1) {
                Some(q) => {
                    let is_key = s.subrange(j + 1, q) == key;
                    let m = spec_skip_ws(s, q + 1);
                    if m < s.len() && s[m] == 0x3a {
                        let v = spec_skip_ws(s, m + 1);
                        if i <= v <= s.len() {
                            match spec_skip_value(s, v) {
                                Some(e) => {
                                    if is_key && found is Some {
                                        None
                                    } else {
                                        let nf = if is_key {
                                            Some((v, e))
                                        } else {
                                            found
                                        };
                                        let k = spec_skip_ws(s, e);
                                        if k < s.len() && s[k] == 0x2c {
                                            if i < k + 1 {
                                                spec_obj_find(s, k + 1, key, nf)
                                            } else {
                                                None
                                            }
                                        } else if k < s.len() && s[k] == 0x7d {
                                            Some((nf, k + 1))
                                        } else {
                                            None
                                        }
                                    }
                                },
                                None => None,
                            }
                        } else {
                            None
                        }
                    } else {
                        None
                    }
                },
                None => None,
            }
        } else {
            None
        }
    }
}

/// With `vs` at a string value's opening quote: its content bytes.
pub open spec fn spec_string_content(s: Seq<u8>, vs: int) -> Option<Seq<u8>> {
    if 0 <= vs < s.len() && s[vs] == 0x22 {
        match spec_scan_string(s, vs + 1) {
            Some(q) => Some(s.subrange(vs + 1, q)),
            None => None,
        }
    } else {
        None
    }
}

/// The payload of the envelope `{"result":{"image":"<base64>"}}`: the
/// `image` string's bytes, or `None` where the document is not one
/// well-formed object carrying such a member.
pub open spec fn spec_cf_extract(s: Seq<u8>) -> Option<Seq<u8>> {
    let i = spec_skip_ws(s, 0);
    if i < s.len() && s[i] == 0x7b {
        match spec_obj_find(s, i + 1, "result".spec_bytes(), None) {
            Some((fo, e)) => {
                if spec_skip_ws(s, e) == s.len() {
                    match fo {
                        Some((vs, _)) => spec_cf_image(s, vs),
                        None => None,
                    }
                } else {
                    None
                }
            },
            None => None,
        }
    } else {
        None
    }
}

/// The `image` member of the inner `result` object, which must be a string.
pub open spec fn spec_cf_image(s: Seq<u8>, vs: int) -> Option<Seq<u8>> {
    if 0 <= vs < s.len() && s[vs] == 0x7b {
        match spec_obj_find(s, vs + 1, "image".spec_bytes(), None) {
            Some((fo, _)) => match fo {
                Some((ws_, _)) => spec_string_content(s, ws_),
                None => None,
            },
            None => None,
        }
    } else {
        None
    }
}

/// The payload of the envelope `{"data":[{"b64_json":"<base64>"},...]}`.
/// `None`: the document is malformed. `Some(None)`: well-formed with an
/// empty `data` list. `Some(Some(p))`: the first element's `b64_json` bytes.
pub open spec fn spec_ta_extract(s: Seq<u8>) -> Option<Option<Seq<u8>>> {
    let i = spec_skip_ws(s, 0);
    if i < s.len() && s[i] == 0x7b {
        match spec_obj_find(s, i + 1, "data".spec_bytes(), None) {
            Some((fo, e)) => {
                if spec_skip_ws(s, e) == s.len() {
                    match fo {
                        Some((vs, _)) => spec_ta_first(s, vs),
                        None => None,
                    }
                } else {
                    None
                }
            },
            None => None,
        }
    } else {
        None
    }
}

/// The `data` value must be an array; its first element, if any, must be an
/// object whose `b64_json` member is a string.
pub open spec fn spec_ta_first(s: Seq<u8>, vs: int) -> Option<Option<Seq<u8>>> {
    if 0 <= vs < s.len() && s[vs] == 0x5b {
        let j = spec_skip_ws(s, vs + 1);
        if j < s.len() && s[j] == 0x5d {
            Some(None)
        } else if j < s.len() && s[j] == 0x7b {
            match spec_obj_find(s, j + 1, "b64_json".spec_bytes(), None) {
                Some((fo, _)) => match fo {
                    Some((bs, _)) => match spec_string_content(s, bs) {
                        Some(p) => Some(Some(p)),
                        None => None,
                    },
                    None => None,
                },
                None => None,
            }
        } else {
            None
        }
    } else {
        None
    }
}

/// A string scan over bytes free of quotes and backslashes ends at the
/// first quote after them.
pub proof fn lemma_scan_plain(s: Seq<u8>, i: int, q: int)
    requires
        0 <= i <= q < s.len(),
        s[q] == 0x22,
        forall|k: int| i <= k < q ==> s[k] != 0x22 && s[k] != 0x5c,
    ensures
        spec_scan_string(s, i) == Some(q),
    decreases q - i,
{
    if i < q {
        lemma_scan_plain(s, i + 1, q);
    }
}

/// Embedding any quote- and backslash-free payload in the envelope
/// `{"result":{"image":"<payload>"}}` and extracting it again yields the
/// payload unchanged: the round trip through the wire format is the
/// identity on what base64 can produce.
pub proof fn lemma_cf_envelope_extract(p: Seq<u8>)
    requires
        forall|k: int| 0 <= k < p.len() ==> p[k] != 0x22 && p[k] != 0x5c,
    ensures
        spec_cf_extract("{\"result\":{\"image\":\"".spec_bytes() + p + "\"}}".spec_bytes())
            == Some(p),
{
    let pre = "{\"result\":{\"image\":\"".spec_bytes();
    let suf = "\"}}".spec_bytes();
    let e = pre + p + suf;
    let n = p.len() as int;
    let key_r = "result".spec_bytes();
    let key_i = "image".spec_bytes();
    reveal_strlit("{\"result\":{\"image\":\"");
    reveal_strlit("\"}}");
    reveal_strlit("result");
    reveal_strlit("image");
    assert(vstd::utf8::is_ascii_chars("{\"result\":{\"image\":\""@));
    assert(vstd::utf8::is_ascii_chars("\"}}"@));
    assert(vstd::utf8::is_ascii_chars("result"@));
    assert(vstd::utf8::is_ascii_chars("image"@));
    vstd::utf8::is_ascii_chars_encode_utf8("{\"result\":{\"image\":\""@);
    vstd::utf8::is_ascii_chars_encode_utf8("\"}}"@);
    vstd::utf8::is_ascii_chars_encode_utf8("result"@);
    vstd::utf8::is_ascii_chars_encode_utf8("image"@);
    assert(pre.len() == 20 && suf.len() == 3);
    assert(e.len() == 23 + n);
    assert(pre[0] == 0x7b && pre[1] == 0x22 && pre[2] == 0x72 && pre[3] == 0x65 && pre[4] == 0x73
        && pre[5] == 0x75 && pre[6] == 0x6c && pre[7] == 0x74 && pre[8] == 0x22 && pre[9] == 0x3a
        && pre[10] == 0x7b && pre[11] == 0x22 && pre[12] == 0x69 && pre[13] == 0x6d && pre[14]
        == 0x61 && pre[15] == 0x67 && pre[16] == 0x65 && pre[17] == 0x22 && pre[18] == 0x3a
        && pre[19] == 0x22);
    assert(suf[0] == 0x22 && suf[1] == 0x7d && suf[2] == 0x7d);
    assert(forall|k: int| 0 <= k < 20 ==> e[k] == pre[k]);
    assert(forall|k: int| 20 <= k < 20 + n ==> e[k] == p[k - 20]);
    assert(forall|k: int| 20 + n <= k < 23 + n ==> e[k] == suf[k - 20 - n]);
    assert(spec_skip_ws(e, 0) == 0);
    assert(spec_skip_ws(e, 1) == 1);
    lemma_scan_plain(e, 2, 8);
    assert(e.subrange(2, 8) =~= key_r);
    assert(key_r.len() == 6 && key_r[0] == 0x72 && key_r[1] == 0x65 && key_r[2] == 0x73 && key_r[3]
        == 0x75 && key_r[4] == 0x6c && key_r[5] == 0x74);
    assert(spec_skip_ws(e, 9) == 9);
    assert(spec_skip_ws(e, 10) == 10);
    assert(spec_skip_ws(e, 11) == 11);
    lemma_scan_plain(e, 12, 17);
    assert(e.subrange(12, 17) =~= key_i);
    assert(key_i.len() == 5 && key_i[0] == 0x69 && key_i[1] == 0x6d && key_i[2] == 0x61 && key_i[3]
        == 0x67 && key_i[4] == 0x65);
    assert(spec_skip_ws(e, 18) == 18);
    assert(spec_skip_ws(e, 19) == 19);
    assert(e[20 + n] == 0x22);
    lemma_scan_plain(e, 20, 20 + n);
    assert(spec_skip_value(e, 19) == Some(21 + n));
    assert(e[21 + n] == 0x7d);
    assert(spec_skip_ws(e, 21 + n) == 21 + n);
    assert(spec_obj_rest(e, 11) == Some(22 + n));
    assert(spec_skip_value(e, 10) == Some(22 + n));
    assert(e[22 + n] == 0x7d);
    assert(spec_skip_ws(e, 22 + n) == 22 + n);
    assert(spec_obj_find(e, 1, key_r, None) == Some((Some((10int, 22 + n)), 23 + n)));
    assert(spec_skip_ws(e, 23 + n) == 23 + n);
    assert(spec_obj_find(e, 11, key_i, None) == Some((Some((19int, 21 + n)), 22 + n)));
    assert(e.subrange(20, 20 + n) =~= p);
    assert(spec_string_content(e, 19) == Some(p));
    assert(spec_cf_image(e, 10) == Some(p));
    assert(spec_cf_extract(e) == Some(p));
}

/// Embedding any quote- and backslash-free payload in the envelope
/// `{"data":[{"b64_json":"<payload>"}]}` and extracting it again yields the
/// payload unchanged.
#[verifier::rlimit(60)]
pub proof fn lemma_ta_envelope_extract(p: Seq<u8>)
    requires
        forall|k: int| 0 <= k < p.len() ==> p[k] != 0x22 && p[k] != 0x5c,
    ensures
        spec_ta_extract("{\"data\":[{\"b64_json\":\"".spec_bytes() + p + "\"}]}".spec_bytes())
            == Some(Some(p)),
{
    let pre = "{\"data\":[{\"b64_json\":\"".spec_bytes();
    let suf = "\"}]}".spec_bytes();
    let e = pre + p + suf;
    let n = p.len() as int;
    let key_d = "data".spec_bytes();
    let key_b = "b64_json".spec_bytes();
    reveal_strlit("{\"data\":[{\"b64_json\":\"");
    reveal_strlit("\"}]}");
    reveal_strlit("data");
    reveal_strlit("b64_json");
    assert(vstd::utf8::is_ascii_chars("{\"data\":[{\"b64_json\":\""@));
    assert(vstd::utf8::is_ascii_chars("\"}]}"@));
    assert(vstd::utf8::is_ascii_chars("data"@));
    assert(vstd::utf8::is_ascii_chars("b64_json"@));
    vstd::utf8::is_ascii_chars_encode_utf8("{\"data\":[{\"b64_json\":\""@);
    vstd::utf8::is_ascii_chars_encode_utf8("\"}]}"@);
    vstd::utf8::is_ascii_chars_encode_utf8("data"@);
    vstd::utf8::is_ascii_chars_encode_utf8("b64_json"@);
    assert(pre.len() == 22 && suf.len() == 4);
    assert(e.len() == 26 + n);
    assert(pre[0] == 0x7b && pre[1] == 0x22 && pre[2] == 0x64 && pre[3] == 0x61 && pre[4] == 0x74
        && pre[5] == 0x61 && pre[6] == 0x22 && pre[7] == 0x3a && pre[8] == 0x5b && pre[9] == 0x7b
        && pre[10] == 0x22 && pre[11] == 0x62 && pre[12] == 0x36 && pre[13] == 0x34 && pre[14]
        == 0x5f && pre[15] == 0x6a && pre[16] == 0x73 && pre[17] == 0x6f && pre[18] == 0x6e
        && pre[19] == 0x22 && pre[20] == 0x3a && pre[21] == 0x22);
    assert(suf[0] == 0x22 && suf[1] == 0x7d && suf[2] == 0x5d && suf[3] == 0x7d);
    assert(forall|k: int| 0 <= k < 22 ==> e[k] == pre[k]);
    assert(forall|k: int| 22 <= k < 22 + n ==> e[k] == p[k - 22]);
    assert(forall|k: int| 22 + n <= k < 26 + n ==> e[k] == suf[k - 22 - n]);
    assert(spec_skip_ws(e, 0) == 0);
    assert(spec_skip_ws(e, 1) == 1);
    lemma_scan_plain(e, 2, 6);
    assert(e.subrange(2, 6) =~= key_d);
    assert(key_d.len() == 4 && key_d[0] == 0x64 && key_d[1] == 0x61 && key_d[2] == 0x74 && key_d[3]
        == 0x61);
    assert(spec_skip_ws(e, 7) == 7);
    assert(spec_skip_ws(e, 8) == 8);
    assert(spec_skip_ws(e, 9) == 9);
    assert(spec_skip_ws(e, 10) == 10);
    lemma_scan_plain(e, 11, 19);
    assert(e.subrange(11, 19) =~= key_b);
    assert(key_b.len() == 8 && key_b[0] == 0x62 && key_b[1] == 0x36 && key_b[2] == 0x34 && key_b[3]
        == 0x5f && key_b[4] == 0x6a && key_b[5] == 0x73 && key_b[6] == 0x6f && key_b[7] == 0x6e);
    assert(spec_skip_ws(e, 20) == 20);
    assert(spec_skip_ws(e, 21) == 21);
    assert(e[22 + n] == 0x22);
    lemma_scan_plain(e, 22, 22 + n);
    assert(spec_skip_value(e, 21) == Some(23 + n));
    assert(e[23 + n] == 0x7d);
    assert(spec_skip_ws(e, 23 + n) == 23 + n);
    assert(spec_obj_rest(e, 10) == Some(24 + n));
    assert(spec_skip_value(e, 9) == Some(24 + n));
    assert(e[24 + n] == 0x5d);
    assert(spec_skip_ws(e, 24 + n) == 24 + n);
    assert(spec_arr_rest(e, 9) == Some(25 + n));
    assert(spec_skip_value(e, 8) == Some(25 + n));
    assert(e[25 + n] == 0x7d);
    assert(spec_skip_ws(e, 25 + n) == 25 + n);
    assert(spec_obj_find(e, 1, key_d, None) == Some((Some((8int, 25 + n)), 26 + n)));
    assert(spec_skip_ws(e, 26 + n) == 26 + n);
    assert(spec_obj_find(e, 10, key_b, None) == Some((Some((21int, 23 + n)), 24 + n)));
    assert(e.subrange(22, 22 + n) =~= p);
    assert(spec_string_content(e, 21) == Some(p));
    assert(spec_ta_first(e, 8) == Some(Some(p)));
    assert(spec_ta_extract(e) == Some(Some(p)));
}

fn is_ws_byte(b: u8) -> (r: bool)
    ensures
        r == is_json_ws(b),
{
    b == 0x20 || b == 0x09 || b == 0x0a || b == 0x0d
}

fn is_delim_byte(b: u8) -> (r: bool)
    ensures
        r == is_delim(b),
{
    is_ws_byte(b) || b == 0x2c || b == 0x7d || b == 0x5d || b == 0x22 || b == 0x7b || b == 0x5b
        || b == 0x3a
}

fn skip_ws(s: &[u8], i: usize) -> (r: usize)
    requires
        i <= s@.len(),
    ensures
        r as int == spec_skip_ws(s@, i as int),
        i <= r <= s@.len(),
{
    let mut j = i;
    while j < s.len() && is_ws_byte(s[j])
        invariant
            i <= j <= s@.len(),
            spec_skip_ws(s@, i as int) == spec_skip_ws(s@, j as int),
        decreases s@.len() - j,
    {
        j = j + 1;
    }
    j
}

fn scalar_end(s: &[u8], i: usize) -> (r: usize)
    requires
        i <= s@.len(),
    ensures
        r as int == spec_scalar_end(s@, i as int),
        i <= r <= s@.len(),
{
    let mut j = i;
    while j < s.len() && !is_delim_byte(s[j])
        invariant
            i <= j <= s@.len(),
            spec_scalar_end(s@, i as int) == spec_scalar_end(s@, j as int),
        decreases s@.len() - j,
    {
        j = j + 1;
    }
    j
}

fn scan_string(s: &[u8], i: usize) -> (r: Option<usize>)
    requires
        i <= s@.len(),
    ensures
        match r {
            Some(q) => spec_scan_string(s@, i as int) == Some(q as int) && i <= q < s@.len(),
            None => spec_scan_string(s@, i as int) is None,
        },
{
    let mut j = i;
    loop
        invariant
            i <= j <= s@.len(),
            spec_scan_string(s@, i as int) == spec_scan_string(s@, j as int),
        decreases s@.len() - j,
    {
        if j >= s.len() {
            return None;
        }
        let b = s[j];
        if b == 0x22 {
            return Some(j);
        }
        if b == 0x5c {
            if s.len() - j >= 2 {
                j = j + 2;
            } else {
                return None;
            }
        } else {
            j = j + 1;
        }
    }
}

fn skip_value(s: &[u8], i: usize) -> (r: Option<usize>)
    requires
        i <= s@.len(),
    ensures
        match r {
            Some(e) => spec_skip_value(s@, i as int) == Some(e as int) && i < e <= s@.len(),
            None => spec_skip_value(s@, i as int) is None,
        },
    decreases s@.len() - i, 0int,
{
    if i >= s.len() {
        return None;
    }
    let b = s[i];
    if b == 0x22 {
        match scan_string(s, i + 1) {
            Some(q) => Some(q + 1),
            None => None,
        }
    } else if b == 0x7b {
        obj_rest(s, i + 1)
    } else if b == 0x5b {
        arr_rest(s, i + 1)
    } else {
        let e = scalar_end(s, i);
        if e > i {
            Some(e)
        } else {
            None
        }
    }
}

fn obj_rest(s: &[u8], i: usize) -> (r: Option<usize>)
    requires
        i <= s@.len(),
    ensures
        match r {
            Some(e) => spec_obj_rest(s@, i as int) == Some(e as int) && i < e <= s@.len(),
            None => spec_obj_rest(s@, i as int) is None,
        },
    decreases s@.len() - i, 1int,
{
    let j = skip_ws(s, i);
    if j < s.len() && s[j] == 0x7d {
        return Some(j + 1);
    }
    if !(j < s.len() && s[j] == 0x22) {
        return None;
    }
    let q = match scan_string(s, j + 1) {
        Some(q) => q,
        None => {
            return None;
        },
    };
    let m = skip_ws(s, q + 1);
    if !(m < s.len() && s[m] == 0x3a) {
        return None;
    }
    let v = skip_ws(s, m + 1);
    let e = match skip_value(s, v) {
        Some(e) => e,
        None => {
            return None;
        },
    };
    let k = skip_ws(s, e);
    if k < s.len() && s[k] == 0x2c {
        obj_rest(s, k + 1)
    } else if k < s.len() && s[k] == 0x7d {
        Some(k + 1)
    } else {
        None
    }
}

fn arr_rest(s: &[u8], i: usize) -> (r: Option<usize>)
    requires
        i <= s@.len(),
    ensures
        match r {
            Some(e) => spec_arr_rest(s@, i as int) == Some(e as int) && i < e <= s@.len(),
            None => spec_arr_rest(s@, i as int) is None,
        },
    decreases s@.len() - i, 1int,
{
    let j = skip_ws(s, i);
    if j < s.len() && s[j] == 0x5d {
        return Some(j + 1);
    }
    let e = match skip_value(s, j) {
        Some(e) => e,
        None => {
            return None;
        },
    };
    let k = skip_ws(s, e);
    if k < s.len() && s[k] == 0x2c {
        arr_rest(s, k + 1)
    } else if k < s.len() && s[k] == 0x5d {
        Some(k + 1)
    } else {
        None
    }
}

fn obj_find(s: &[u8], i: usize, key: &[u8], found: Option<(usize, usize)>) -> (r: Option<
    (Option<(usize, usize)>, usize),
>)
    requires
        i <= s@.len(),
        found matches Some((a, b)) ==> a <= s@.len() && b <= s@.len(),
    ensures
        match r {
            Some((fo, e)) => spec_obj_find(s@, i as int, key@, opt_pair(found)) == Some(
                (opt_pair(fo), e as int),
            ) && e <= s@.len() && (fo matches Some((a, b)) ==> a <= s@.len() && b <= s@.len()),
            None => spec_obj_find(s@, i as int, key@, opt_pair(found)) is None,
        },
    decreases s@.len() - i,
{
    let j = skip_ws(s, i);
    if j < s.len() && s[j] == 0x7d {
        return Some((found, j + 1));
    }
    if !(j < s.len() && s[j] == 0x22) {
        return None;
    }
    let q = match scan_string(s, j + 1) {
        Some(q) => q,
        None => {
            return None;
        },
    };
    let is_key = crate::ser::bytes_eq(&s[j + 1..q], key);
    let m = skip_ws(s, q + 1);
    if !(m < s.len() && s[m] == 0x3a) {
        return None;
    }
    let v = skip_ws(s, m + 1);
    let e = match skip_value(s, v) {
        Some(e) => e,
        None => {
            return None;
        },
    };
    if is_key && found.is_some() {
        return None;
    }
    let nf: Option<(usize, usize)> = if is_key {
        Some((v, e))
    } else {
        found
    };
    let k = skip_ws(s, e);
    if k < s.len() && s[k] == 0x2c {
        obj_find(s, k + 1, key, nf)
    } else if k < s.len() && s[k] == 0x7d {
        Some((nf, k + 1))
    } else {
        None
    }
}

fn string_content(s: &[u8], vs: usize) -> (r: Option<Vec<u8>>)
    requires
        vs <= s@.len(),
    ensures
        match r {
            Some(v) => spec_string_content(s@, vs as int) == Some(v@),
            None => spec_string_content(s@, vs as int) is None,
        },
{
    if !(vs < s.len() && s[vs] == 0x22) {
        return None;
    }
    match scan_string(s, vs + 1) {
        Some(q) => Some(vstd::slice::slice_to_vec(&s[vs + 1..q])),
        None => None,
    }
}

/// Pulls the base64 payload out of the `{"result":{"image":...}}` envelope.
pub fn cf_extract(s: &[u8]) -> (r: Option<Vec<u8>>)
    ensures
        match r {
            Some(v) => spec_cf_extract(s@) == Some(v@),
            None => spec_cf_extract(s@) is None,
        },
{
    let i = skip_ws(s, 0);
    if !(i < s.len() && s[i] == 0x7b) {
        return None;
    }
    let (fo, e) = match obj_find(s, i + 1, "result".as_bytes(), None) {
        Some(r) => r,
        None => {
            return None;
        },
    };
    if skip_ws(s, e) != s.len() {
        return None;
    }
    let vs = match fo {
        Some((vs, _)) => vs,
        None => {
            return None;
        },
    };
    if !(vs < s.len() && s[vs] == 0x7b) {
        return None;
    }
    let (fo2, _) = match obj_find(s, vs + 1, "image".as_bytes(), None) {
        Some(r) => r,
        None => {
            return None;
        },
    };
    match fo2 {
        Some((ws_, _)) => string_content(s, ws_),
        None => None,
    }
}

/// Pulls the first base64 payload out of the `{"data":[...]}` envelope.
/// `Err(false)`: the document is malformed. `Err(true)`: well-formed with an
/// empty `data` list.
pub fn ta_extract(s: &[u8]) -> (r: Result<Vec<u8>, bool>)
    ensures
        match r {
            Ok(v) => spec_ta_extract(s@) == Some(Some(v@)),
            Err(empty) => if empty {
                spec_ta_extract(s@) == Some(None::<Seq<u8>>)
            } else {
                spec_ta_extract(s@) is None
            },
        },
{
    let i = skip_ws(s, 0);
    if !(i < s.len() && s[i] == 0x7b) {
        return Err(false);
    }
    let (fo, e) = match obj_find(s, i + 1, "data".as_bytes(), None) {
        Some(r) => r,
        None => {
            return Err(false);
        },
    };
    if skip_ws(s, e) != s.len() {
        return Err(false);
    }
    let vs = match fo {
        Some((vs, _)) => vs,
        None => {
            return Err(false);
        },
    };
    if !(vs < s.len() && s[vs] == 0x5b) {
        return Err(false);
    }
    let j = skip_ws(s, vs + 1);
    if j < s.len() && s[j] == 0x5d {
        return Err(true);
    }
    if !(j < s.len() && s[j] == 0x7b) {
        return Err(false);
    }
    let (fo2, _) = match obj_find(s, j + 1, "b64_json".as_bytes(), None) {
        Some(r) => r,
        None => {
            return Err(false);
        },
    };
    match fo2 {
        Some((bs, _)) => match string_content(s, bs) {
            Some(p) => Ok(p),
            None => Err(false),
        },
        None => Err(false),
    }
}

} // verus!
