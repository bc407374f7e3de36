//! Shared helpers for converting the list- and map-valued fields of the
//! protocol: payload sequences and string-keyed payload maps (carried as
//! ordered entry lists).  Conversions move their input and preserve entry
//! order exactly.

use vstd::prelude::*;

use crate::common::{
    decode_payload, decode_user_code_failure, encode_payload, encode_user_code_failure,
    lemma_user_code_failure_round_trip, spec_decode_failure, spec_decode_payload,
    spec_encode_failure, spec_encode_payload, Payload, PayloadView, UserCodeFailure,
    UserCodeFailureView, WirePayload, WirePayloadView, WireUserCodeFailure,
    WireUserCodeFailureView,
};
use crate::errors::DecodeError;

verus! {

/// Reverses a vector by moving its elements; the building block of the
/// order-preserving list conversions below.
pub fn reverse_vec<T>(v: Vec<T>) -> (r: Vec<T>)
    ensures
        r@.len() == v@.len(),
        forall|j: int| 0 <= j < v@.len() ==> r@[j] == v@[v@.len() - 1 - j],
{
    let mut src = v;
    let mut r: Vec<T> = Vec::new();
    proof {
        assert(src@ =~= v@.take(src@.len() as int));
    }
    while src.len() > 0
        invariant
            src@ =~= v@.take(src@.len() as int),
            r@.len() + src@.len() == v@.len(),
            forall|j: int| 0 <= j < r@.len() ==> r@[j] == v@[v@.len() - 1 - j],
        decreases src.len(),
    {
        let x = src.pop().unwrap();
        r.push(x);
        proof {
            assert(src@ =~= v@.take(src@.len() as int));
        }
    }
    r
}

/// What decoding a payload sequence yields: each payload decoded, order
/// kept.
pub open spec fn spec_decode_payload_seq(s: Seq<WirePayloadView>) -> Seq<PayloadView> {
    s.map_values(|w: WirePayloadView| spec_decode_payload(w))
}

/// What encoding a payload sequence yields: each payload encoded, order
/// kept.
pub open spec fn spec_encode_payload_seq(s: Seq<PayloadView>) -> Seq<WirePayloadView> {
    s.map_values(|p: PayloadView| spec_encode_payload(p))
}

/// Decodes a list of wire payloads, preserving order; total.
pub fn decode_payload_vec(v: Vec<WirePayload>) -> (r: Vec<Payload>)
    ensures
        r.deep_view() == spec_decode_payload_seq(v.deep_view()),
{
    let ghost src = v.deep_view();
    let mut rem = v;
    let mut tmp: Vec<Payload> = Vec::new();
    while rem.len() > 0
        invariant
            rem@.len() + tmp@.len() == src.len(),
            forall|j: int| 0 <= j < rem@.len() ==> rem@[j].deep_view() == src[j],
            forall|j: int|
                0 <= j < tmp@.len() ==> tmp@[j].deep_view() == spec_decode_payload(
                    src[src.len() - 1 - j],
                ),
        decreases rem.len(),
    {
        let w = rem.pop().unwrap();
        let p = decode_payload(w);
        tmp.push(p);
    }
    let r = reverse_vec(tmp);
    proof {
        assert(r.deep_view() =~= spec_decode_payload_seq(src));
    }
    r
}

/// Encodes a list of payloads for the wire, preserving order; total.
pub fn encode_payload_vec(v: Vec<Payload>) -> (r: Vec<WirePayload>)
    ensures
        r.deep_view() == spec_encode_payload_seq(v.deep_view()),
{
    let ghost src = v.deep_view();
    let mut rem = v;
    let mut tmp: Vec<WirePayload> = Vec::new();
    while rem.len() > 0
        invariant
            rem@.len() + tmp@.len() == src.len(),
            forall|j: int| 0 <= j < rem@.len() ==> rem@[j].deep_view() == src[j],
            forall|j: int|
                0 <= j < tmp@.len() ==> tmp@[j].deep_view() == spec_encode_payload(
                    src[src.len() - 1 - j],
                ),
        decreases rem.len(),
    {
        let p = rem.pop().unwrap();
        let w = encode_payload(p);
        tmp.push(w);
    }
    let r = reverse_vec(tmp);
    proof {
        assert(r.deep_view() =~= spec_encode_payload_seq(src));
    }
    r
}

/// Round-trip law for payload sequences.
pub proof fn lemma_payload_seq_round_trip(s: Seq<PayloadView>)
    ensures
        spec_decode_payload_seq(spec_encode_payload_seq(s)) == s,
{
    assert(spec_decode_payload_seq(spec_encode_payload_seq(s)) =~= s);
}

/// What decoding a string-keyed payload map (an ordered entry list)
/// yields: keys kept, each payload decoded, entry order kept.
pub open spec fn spec_decode_header_seq(s: Seq<(Seq<char>, WirePayloadView)>) -> Seq<
    (Seq<char>, PayloadView),
> {
    s.map_values(|e: (Seq<char>, WirePayloadView)| (e.0, spec_decode_payload(e.1)))
}

/// What encoding a string-keyed payload map yields.
pub open spec fn spec_encode_header_seq(s: Seq<(Seq<char>, PayloadView)>) -> Seq<
    (Seq<char>, WirePayloadView),
> {
    s.map_values(|e: (Seq<char>, PayloadView)| (e.0, spec_encode_payload(e.1)))
}

/// Decodes a string-keyed map of wire payloads, preserving entry order;
/// total.
pub fn decode_header_vec(v: Vec<(String, WirePayload)>) -> (r: Vec<(String, Payload)>)
    ensures
        r.deep_view() == spec_decode_header_seq(v.deep_view()),
{
    let ghost src = v.deep_view();
    let mut rem = v;
    let mut tmp: Vec<(String, Payload)> = Vec::new();
    while rem.len() > 0
        invariant
            rem@.len() + tmp@.len() == src.len(),
            forall|j: int| 0 <= j < rem@.len() ==> rem@[j].deep_view() == src[j],
            forall|j: int|
                0 <= j < tmp@.len() ==> tmp@[j].deep_view() == (
                    src[src.len() - 1 - j].0,
                    spec_decode_payload(src[src.len() - 1 - j].1),
                ),
        decreases rem.len(),
    {
        let (k, w) = rem.pop().unwrap();
        let p = decode_payload(w);
        tmp.push((k, p));
    }
    let r = reverse_vec(tmp);
    proof {
        assert(r.deep_view() =~= spec_decode_header_seq(src));
    }
    r
}

/// Encodes a string-keyed map of payloads for the wire, preserving entry
/// order; total.
pub fn encode_header_vec(v: Vec<(String, Payload)>) -> (r: Vec<(String, WirePayload)>)
    ensures
        r.deep_view() == spec_encode_header_seq(v.deep_view()),
{
    let ghost src = v.deep_view();
    let mut rem = v;
    let mut tmp: Vec<(String, WirePayload)> = Vec::new();
    while rem.len() > 0
        invariant
            rem@.len() + tmp@.len() == src.len(),
            forall|j: int| 0 <= j < rem@.len() ==> rem@[j].deep_view() == src[j],
            forall|j: int|
                0 <= j < tmp@.len() ==> tmp@[j].deep_view() == (
                    src[src.len() - 1 - j].0,
                    spec_encode_payload(src[src.len() - 1 - j].1),
                ),
        decreases rem.len(),
    {
        let (k, p) = rem.pop().unwrap();
        let w = encode_payload(p);
        tmp.push((k, w));
    }
    let r = reverse_vec(tmp);
    proof {
        assert(r.deep_view() =~= spec_encode_header_seq(src));
    }
    r
}

/// Round-trip law for string-keyed payload maps.
pub proof fn lemma_header_seq_round_trip(s: Seq<(Seq<char>, PayloadView)>)
    ensures
        spec_decode_header_seq(spec_encode_header_seq(s)) == s,
{
    assert(spec_decode_header_seq(spec_encode_header_seq(s)) =~= s);
}

/// What decoding an optional payload field yields; total.
pub open spec fn spec_decode_opt_payload(w: Option<WirePayloadView>) -> Option<PayloadView> {
    match w {
        Option::None => Option::None,
        Option::Some(p) => Option::Some(spec_decode_payload(p)),
    }
}

/// What encoding an optional payload field yields; total.
pub open spec fn spec_encode_opt_payload(p: Option<PayloadView>) -> Option<WirePayloadView> {
    match p {
        Option::None => Option::None,
        Option::Some(pp) => Option::Some(spec_encode_payload(pp)),
    }
}

/// Decodes an optional payload field; total.
pub fn decode_opt_payload(w: Option<WirePayload>) -> (r: Option<Payload>)
    ensures
        r.deep_view() == spec_decode_opt_payload(w.deep_view()),
{
    match w {
        Option::None => Option::None,
        Option::Some(p) => Option::Some(decode_payload(p)),
    }
}

/// Encodes an optional payload field; total.
pub fn encode_opt_payload(p: Option<Payload>) -> (r: Option<WirePayload>)
    ensures
        r.deep_view() == spec_encode_opt_payload(p.deep_view()),
{
    match p {
        Option::None => Option::None,
        Option::Some(pp) => Option::Some(encode_payload(pp)),
    }
}

/// Round-trip law for optional payload fields.
pub proof fn lemma_opt_payload_round_trip(p: Option<PayloadView>)
    ensures
        spec_decode_opt_payload(spec_encode_opt_payload(p)) == p,
{
}

/// What decoding an optional failure field yields; total.
pub open spec fn spec_decode_opt_failure(w: Option<WireUserCodeFailureView>) -> Option<
    UserCodeFailureView,
> {
    match w {
        Option::None => Option::None,
        Option::Some(f) => Option::Some(spec_decode_failure(f)),
    }
}

/// What encoding an optional failure field yields; total.
pub open spec fn spec_encode_opt_failure(f: Option<UserCodeFailureView>) -> Option<
    WireUserCodeFailureView,
> {
    match f {
        Option::None => Option::None,
        Option::Some(ff) => Option::Some(spec_encode_failure(ff)),
    }
}

/// Decodes an optional failure field; total.
pub fn decode_opt_failure(w: Option<WireUserCodeFailure>) -> (r: Option<UserCodeFailure>)
    ensures
        r.deep_view() == spec_decode_opt_failure(w.deep_view()),
{
    match w {
        Option::None => Option::None,
        Option::Some(f) => Option::Some(decode_user_code_failure(f)),
    }
}

/// Encodes an optional failure field; total.
pub fn encode_opt_failure(f: Option<UserCodeFailure>) -> (r: Option<WireUserCodeFailure>)
    ensures
        r.deep_view() == spec_encode_opt_failure(f.deep_view()),
{
    match f {
        Option::None => Option::None,
        Option::Some(ff) => Option::Some(encode_user_code_failure(ff)),
    }
}

/// Round-trip law for optional failure fields.
pub proof fn lemma_opt_failure_round_trip(f: Option<UserCodeFailureView>)
    ensures
        spec_decode_opt_failure(spec_encode_opt_failure(f)) == f,
{
    match f {
        Option::None => {
        },
        Option::Some(ff) => {
            lemma_user_code_failure_round_trip(ff);
        },
    }
}

/// Decodes a sequence of wire entities with the given element decoder:
/// every element decoded in order, or the error of the first element that
/// fails.
pub open spec fn spec_decode_seq<W, M>(
    f: spec_fn(W) -> Result<M, DecodeError>,
    s: Seq<W>,
) -> Result<Seq<M>, DecodeError>
    decreases s.len(),
{
    if s.len() == 0 {
        Ok(Seq::empty())
    } else {
        match f(s[0]) {
            Err(e) => Err(e),
            Ok(m) => match spec_decode_seq(f, s.drop_first()) {
                Err(e) => Err(e),
                Ok(rest) => Ok(seq![m] + rest),
            },
        }
    }
}

/// A sequence decode fails with the error of its first failing element.
pub proof fn lemma_decode_seq_error<W, M>(
    f: spec_fn(W) -> Result<M, DecodeError>,
    s: Seq<W>,
    i: int,
)
    requires
        0 <= i < s.len(),
        forall|k: int| 0 <= k < i ==> (#[trigger] f(s[k])) is Ok,
        f(s[i]) is Err,
    ensures
        spec_decode_seq(f, s) == Err::<Seq<M>, DecodeError>(f(s[i])->Err_0),
    decreases i,
{
    if i == 0 {
    } else {
        assert(forall|k: int|
            0 <= k < i - 1 ==> (#[trigger] f(s.drop_first()[k])) == f(s[k + 1]));
        assert(s.drop_first()[i - 1] == s[i]);
        lemma_decode_seq_error(f, s.drop_first(), i - 1);
    }
}

/// A sequence decode whose every element decodes yields exactly the
/// element-wise decoded sequence, order kept.
pub proof fn lemma_decode_seq_done<W, M>(f: spec_fn(W) -> Result<M, DecodeError>, s: Seq<W>)
    requires
        forall|k: int| 0 <= k < s.len() ==> (#[trigger] f(s[k])) is Ok,
    ensures
        spec_decode_seq(f, s) == Ok::<Seq<M>, DecodeError>(
            Seq::new(s.len(), |k: int| f(s[k])->Ok_0),
        ),
    decreases s.len(),
{
    if s.len() == 0 {
        assert(Seq::new(s.len(), |k: int| f(s[k])->Ok_0) =~= Seq::<M>::empty());
    } else {
        assert(forall|k: int|
            0 <= k < s.drop_first().len() ==> (#[trigger] f(s.drop_first()[k])) == f(s[k + 1]));
        lemma_decode_seq_done(f, s.drop_first());
        assert(seq![f(s[0])->Ok_0] + Seq::new(s.drop_first().len(), |k: int| f(s.drop_first()[k])->Ok_0)
            =~= Seq::new(s.len(), |k: int| f(s[k])->Ok_0));
    }
}

/// A successful sequence decode decodes exactly its elements, in order:
/// the result has one entry per wire entry, each the decode of the wire
/// entry at the same position.
pub proof fn lemma_decode_seq_pointwise<W, M>(
    f: spec_fn(W) -> Result<M, DecodeError>,
    s: Seq<W>,
    m: Seq<M>,
)
    requires
        spec_decode_seq(f, s) == Ok::<Seq<M>, DecodeError>(m),
    ensures
        m.len() == s.len(),
        forall|k: int| 0 <= k < s.len() ==> f(#[trigger] s[k]) == Ok::<M, DecodeError>(m[k]),
    decreases s.len(),
{
    if s.len() == 0 {
    } else {
        let rest = spec_decode_seq(f, s.drop_first())->Ok_0;
        lemma_decode_seq_pointwise(f, s.drop_first(), rest);
        assert(m == seq![f(s[0])->Ok_0] + rest);
        assert forall|k: int| 1 <= k < s.len() implies f(#[trigger] s[k]) == Ok::<M, DecodeError>(
            m[k],
        ) by {
            assert(s.drop_first()[k - 1] == s[k]);
            assert(f(s.drop_first()[k - 1]) == Ok::<M, DecodeError>(rest[k - 1]));
            assert((seq![f(s[0])->Ok_0] + rest)[k] == rest[k - 1]);
        }
    }
}

/// Round-trip law for sequence codecs: if every element decodes back to
/// itself, a sequence decoded after element-wise encoding yields the
/// original sequence.
pub proof fn lemma_decode_seq_round_trip<W, M>(
    f: spec_fn(W) -> Result<M, DecodeError>,
    g: spec_fn(M) -> W,
    s: Seq<M>,
)
    requires
        forall|k: int| 0 <= k < s.len() ==> f(g(#[trigger] s[k])) == Ok::<M, DecodeError>(s[k]),
    ensures
        spec_decode_seq(f, s.map_values(g)) == Ok::<Seq<M>, DecodeError>(s),
{
    let w = s.map_values(g);
    assert(forall|k: int| 0 <= k < w.len() ==> (#[trigger] f(w[k])) is Ok);
    lemma_decode_seq_done(f, w);
    assert(Seq::new(w.len(), |k: int| f(w[k])->Ok_0) =~= s);
}

} // verus!
