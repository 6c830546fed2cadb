//! Audio uploads: a form body whose `audio` field holds base64 text.
use vstd::prelude::*;

verus! {

/// The (name, value) pairs of an `application/x-www-form-urlencoded` body, or
/// `None` where it does not decode.
pub uninterp spec fn form_pairs_of(body: Seq<u8>) -> Option<Seq<(Seq<char>, Seq<char>)>>;

/// The bytes that standard base64 text (with padding) decodes to, or `None`
/// where the text is not valid base64.
pub uninterp spec fn base64_decoded(text: Seq<char>) -> Option<Seq<u8>>;

/// The name of the form field that holds the audio.
pub const AUDIO_FIELD: &'static str = "audio";

#[derive(Debug, Clone, Copy, PartialEq, Eq)]
pub enum UploadError {
    /// The body is not a form with exactly one `audio` field.
    FormDecode,
    /// The `audio` field is not valid base64.
    Base64Decode,
}

pub open spec fn pair_view(p: (String, String)) -> (Seq<char>, Seq<char>) {
    (p.0@, p.1@)
}

pub open spec fn pairs_view(ps: Seq<(String, String)>) -> Seq<(Seq<char>, Seq<char>)> {
    ps.map_values(|p: (String, String)| pair_view(p))
}

/// Relies on `serde_urlencoded::from_bytes` into a list of string pairs, in
/// the order in which they stand in the body.
#[verifier::external_body]
fn decode_form_pairs(body: &[u8]) -> (r: Option<Vec<(String, String)>>)
    ensures
        match r {
            Some(v) => form_pairs_of(body@) == Some(pairs_view(v@)),
            None => form_pairs_of(body@) is None,
        },
{
    serde_urlencoded::from_bytes::<Vec<(String, String)>>(body).ok()
}

/// Relies on base64's `STANDARD` engine and its `decode`.
#[verifier::external_body]
fn decode_base64(text: &str) -> (r: Option<Vec<u8>>)
    ensures
        match r {
            Some(v) => base64_decoded(text@) == Some(v@),
            None => base64_decoded(text@) is None,
        },
{
    base64::Engine::decode(&base64::engine::general_purpose::STANDARD, text).ok()
}

/// The values of the fields named `name`, in order.
pub open spec fn field_values(pairs: Seq<(Seq<char>, Seq<char>)>, name: Seq<char>) -> Seq<Seq<char>>
    decreases pairs.len(),
{
    if pairs.len() == 0 {
        Seq::empty()
    } else if pairs.last().0 == name {
        field_values(pairs.drop_last(), name).push(pairs.last().1)
    } else {
        field_values(pairs.drop_last(), name)
    }
}

/// The `audio` field of a form: present once, neither missing nor repeated.
pub open spec fn audio_field_of(pairs: Seq<(Seq<char>, Seq<char>)>) -> Option<Seq<char>> {
    let vals = field_values(pairs, AUDIO_FIELD@);
    if vals.len() == 1 {
        Some(vals[0])
    } else {
        None
    }
}

/// What an upload body decodes to: the audio bytes, or the first step that
/// failed.
pub open spec fn upload_audio(body: Seq<u8>) -> Result<Seq<u8>, UploadError> {
    match form_pairs_of(body) {
        None => Err(UploadError::FormDecode),
        Some(pairs) => match audio_field_of(pairs) {
            None => Err(UploadError::FormDecode),
            Some(text) => match base64_decoded(text) {
                None => Err(UploadError::Base64Decode),
                Some(bytes) => Ok(bytes),
            },
        },
    }
}

/// The value of the one `audio` field of decoded form pairs; `None` where
/// the field is missing or repeated. Other fields are ignored.
pub fn audio_field(pairs: &Vec<(String, String)>) -> (r: Option<String>)
    ensures
        match r {
            Some(t) => audio_field_of(pairs_view(pairs@)) == Some(t@),
            None => audio_field_of(pairs_view(pairs@)) is None,
        },
{
    let ghost pv = pairs_view(pairs@);
    let name = AUDIO_FIELD.to_string();
    let mut found: Option<String> = None;
    let mut count: usize = 0;
    let n = pairs.len();
    let mut i: usize = 0;
    while i < n
        invariant
            n == pairs@.len(),
            pv == pairs_view(pairs@),
            name@ == AUDIO_FIELD@,
            i <= n,
            count as int == field_values(pv.take(i as int), AUDIO_FIELD@).len(),
            count <= i,
            count >= 1 ==> found is Some && found->0@ == field_values(pv.take(i as int), AUDIO_FIELD@)[0],
        decreases n - i,
    {
        proof {
            let t = pv.take(i as int + 1);
            assert(t.drop_last() =~= pv.take(i as int));
            assert(t.last() == pair_view(pairs@[i as int]));
        }
        if pairs[i].0 == name {
            if count == 0 {
                found = Some(pairs[i].1.clone());
            }
            count = count + 1;
        }
        i = i + 1;
    }
    proof {
        assert(pv.take(n as int) =~= pv);
    }
    if count == 1 {
        found
    } else {
        None
    }
}

/// Decodes an upload body into the audio bytes.
pub fn decode_upload(body: &[u8]) -> (r: Result<Vec<u8>, UploadError>)
    ensures
        match r {
            Ok(bytes) => upload_audio(body@) == Ok::<Seq<u8>, UploadError>(bytes@),
            Err(e) => upload_audio(body@) == Err::<Seq<u8>, UploadError>(e),
        },
{
    let pairs = match decode_form_pairs(body) {
        Some(p) => p,
        None => return Err(UploadError::FormDecode),
    };
    let text = match audio_field(&pairs) {
        Some(t) => t,
        None => return Err(UploadError::FormDecode),
    };
    match decode_base64(text.as_str()) {
        Some(bytes) => Ok(bytes),
        None => Err(UploadError::Base64Decode),
    }
}

} // verus!
