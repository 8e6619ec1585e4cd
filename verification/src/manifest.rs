//! ManifestBuilder: a pure, deterministic function from a capture context to
//! the provenance-manifest JSON document. The document holds a title, the
//! fixed `image/jpeg` format, the claim-generator identity, and an ordered
//! list of assertions: five fixed ones, plus a trust assertion exactly when a
//! nonce is supplied; the EXIF assertion gains GPS fields exactly when both
//! coordinates are supplied.

use vstd::prelude::*;
use vstd::string::StrSliceExecFns;
use vstd::string::StringExecFns;

use crate::geo::{decimal_to_exif_dms, spec_dms};
use crate::strutil::{hex_char, push_char, spec_hex_char};

verus! {

/// Immutable input of one capture: application and device identity, the
/// ISO-8601 capture timestamp, a free-form trust level, an optional
/// anti-replay nonce, and optional geolocation. Coordinates are held as
/// signed micro-degrees (decimal degrees times one million); GPS assertions
/// appear only when both are supplied.
pub struct CaptureContext {
    pub app_name: String,
    pub device_model: String,
    pub os_version: String,
    pub captured_at_iso8601: String,
    pub trust_level: String,
    pub nonce: Option<String>,
    pub latitude_microdeg: Option<i64>,
    pub longitude_microdeg: Option<i64>,
}

/// Mathematical image of a capture context.
pub ghost struct CaptureContextView {
    pub app_name: Seq<char>,
    pub device_model: Seq<char>,
    pub os_version: Seq<char>,
    pub captured_at_iso8601: Seq<char>,
    pub trust_level: Seq<char>,
    pub nonce: Option<Seq<char>>,
    pub latitude_microdeg: Option<int>,
    pub longitude_microdeg: Option<int>,
}

impl View for CaptureContext {
    type V = CaptureContextView;

    open spec fn view(&self) -> CaptureContextView {
        CaptureContextView {
            app_name: self.app_name@,
            device_model: self.device_model@,
            os_version: self.os_version@,
            captured_at_iso8601: self.captured_at_iso8601@,
            trust_level: self.trust_level@,
            nonce: match self.nonce {
                Some(ref n) => Some(n@),
                None => None,
            },
            latitude_microdeg: match self.latitude_microdeg {
                Some(v) => Some(v as int),
                None => None,
            },
            longitude_microdeg: match self.longitude_microdeg {
                Some(v) => Some(v as int),
                None => None,
            },
        }
    }
}

/// ASCII whitespace, as used to split the device model into tokens.
pub open spec fn spec_is_space(c: char) -> bool {
    c == ' ' || c == '\t' || c == '\n' || c == '\r'
}

/// `m` with its leading whitespace removed.
pub open spec fn spec_skip_spaces(m: Seq<char>) -> Seq<char>
    decreases m.len(),
{
    if m.len() > 0 && spec_is_space(m[0]) {
        spec_skip_spaces(m.drop_first())
    } else {
        m
    }
}

/// The longest whitespace-free prefix of `m`.
pub open spec fn spec_take_token(m: Seq<char>) -> Seq<char>
    decreases m.len(),
{
    if m.len() > 0 && !spec_is_space(m[0]) {
        seq![m[0]] + spec_take_token(m.drop_first())
    } else {
        Seq::empty()
    }
}

/// Device manufacturer derived from the device model: its first
/// whitespace-delimited token, or the whole string when it has none (empty
/// or all whitespace).
pub open spec fn spec_make(m: Seq<char>) -> Seq<char> {
    if spec_skip_spaces(m).len() == 0 {
        m
    } else {
        spec_take_token(spec_skip_spaces(m))
    }
}

/// Skipping the leading whitespace of `m` leaves the suffix that starts at
/// its first non-whitespace character.
proof fn lemma_skip_at(m: Seq<char>, k: int)
    requires
        0 <= k <= m.len(),
        forall|j: int| 0 <= j < k ==> spec_is_space(m[j]),
        k < m.len() ==> !spec_is_space(m[k]),
    ensures
        spec_skip_spaces(m) == m.subrange(k, m.len() as int),
    decreases k,
{
    if k == 0 {
        assert(m.subrange(0, m.len() as int) =~= m);
    } else {
        lemma_skip_at(m.drop_first(), k - 1);
        assert(m.drop_first().subrange(k - 1, m.drop_first().len() as int) =~= m.subrange(
            k,
            m.len() as int,
        ));
    }
}

/// The token at the head of `m` runs to its first whitespace character.
proof fn lemma_token_at(m: Seq<char>, e: int)
    requires
        0 <= e <= m.len(),
        forall|j: int| 0 <= j < e ==> !spec_is_space(m[j]),
        e < m.len() ==> spec_is_space(m[e]),
    ensures
        spec_take_token(m) == m.subrange(0, e),
    decreases e,
{
    if e == 0 {
        assert(m.subrange(0, 0) =~= Seq::<char>::empty());
    } else {
        lemma_token_at(m.drop_first(), e - 1);
        assert(m.drop_first().subrange(0, e - 1) =~= m.subrange(1, e));
        assert(seq![m[0]] + m.subrange(1, e) =~= m.subrange(0, e));
    }
}

/// First whitespace-delimited token of the device model, or the whole string
/// when it has no such token.
pub fn device_make(model: &str) -> (r: String)
    ensures
        r@ == spec_make(model@),
{
    let n = model.unicode_len();
    let mut start: usize = 0;
    while start < n && is_space(model.get_char(start))
        invariant
            0 <= start <= n,
            n == model@.len(),
            forall|j: int| 0 <= j < start ==> spec_is_space(model@[j]),
        decreases n - start,
    {
        start += 1;
    }
    proof {
        lemma_skip_at(model@, start as int);
    }
    if start == n {
        return model.to_owned();
    }
    let mut end: usize = start;
    while end < n && !is_space(model.get_char(end))
        invariant
            start <= end <= n,
            n == model@.len(),
            forall|j: int| start <= j < end ==> !spec_is_space(model@[j]),
        decreases n - end,
    {
        end += 1;
    }
    proof {
        let tail = model@.subrange(start as int, n as int);
        assert(forall|j: int| 0 <= j < end - start ==> !spec_is_space(tail[j]));
        lemma_token_at(tail, end - start as int);
        assert(tail.subrange(0, end - start as int) =~= model@.subrange(start as int, end as int));
    }
    let mut r = String::new();
    let mut k: usize = start;
    while k < end
        invariant
            start <= k <= end <= n,
            n == model@.len(),
            r@ =~= model@.subrange(start as int, k as int),
        decreases end - k,
    {
        push_char(&mut r, model.get_char(k));
        proof {
            assert(r@ =~= model@.subrange(start as int, (k + 1) as int));
        }
        k += 1;
    }
    r
}

/// ASCII whitespace, as used to split the device model into tokens.
pub fn is_space(c: char) -> (r: bool)
    ensures
        r == spec_is_space(c),
{
    c == ' ' || c == '\t' || c == '\n' || c == '\r'
}

/// JSON escape of one character: quote and backslash get a backslash; the
/// named control characters get their short escapes; other control
/// characters become `\u00` plus two lowercase hex digits; everything else
/// stands unchanged.
pub open spec fn spec_escape_char(c: char) -> Seq<char> {
    if c == '"' {
        "\\\""@
    } else if c == '\\' {
        "\\\\"@
    } else if c == '\n' {
        "\\n"@
    } else if c == '\r' {
        "\\r"@
    } else if c == '\t' {
        "\\t"@
    } else if c == '\u{8}' {
        "\\b"@
    } else if c == '\u{c}' {
        "\\f"@
    } else if (c as u32) < 0x20 {
        "\\u00"@ + seq![
            spec_hex_char((c as u32) as int / 16),
            spec_hex_char((c as u32) as int % 16),
        ]
    } else {
        seq![c]
    }
}

/// JSON escape of a whole string: each character escaped in order.
pub open spec fn spec_escape(s: Seq<char>) -> Seq<char>
    decreases s.len(),
{
    if s.len() == 0 {
        Seq::empty()
    } else {
        spec_escape(s.drop_last()) + spec_escape_char(s.last())
    }
}

/// Appends the JSON escape of `s`.
pub fn push_json_escaped(out: &mut String, s: &str)
    ensures
        final(out)@ == old(out)@ + spec_escape(s@),
{
    let n = s.unicode_len();
    let mut i: usize = 0;
    while i < n
        invariant
            0 <= i <= n,
            n == s@.len(),
            out@ == old(out)@ + spec_escape(s@.take(i as int)),
        decreases n - i,
    {
        let c = s.get_char(i);
        if c == '"' {
            out.append("\\\"");
        } else if c == '\\' {
            out.append("\\\\");
        } else if c == '\n' {
            out.append("\\n");
        } else if c == '\r' {
            out.append("\\r");
        } else if c == '\t' {
            out.append("\\t");
        } else if c == '\u{8}' {
            out.append("\\b");
        } else if c == '\u{c}' {
            out.append("\\f");
        } else if (c as u32) < 0x20 {
            let code = c as u32;
            out.append("\\u00");
            push_char(out, hex_char((code / 16) as u8));
            push_char(out, hex_char((code % 16) as u8));
        } else {
            push_char(out, c);
        }
        proof {
            assert(s@.take(i as int + 1).drop_last() =~= s@.take(i as int));
            assert(s@.take(i as int + 1).last() == s@[i as int]);
            assert(out@ =~= old(out)@ + spec_escape(s@.take(i as int + 1)));
        }
        i += 1;
    }
    proof {
        assert(s@.take(n as int) =~= s@);
    }
}

/// The `c2pa.actions` assertion: one `c2pa.created` capture action with the
/// application as software agent.
pub open spec fn spec_actions_assertion(app_name: Seq<char>) -> Seq<char> {
    "{\"label\":\"c2pa.actions\",\"data\":{\"actions\":[{\"action\":\"c2pa.created\",\"digitalSourceType\":\"http://cv.iptc.org/newscodes/digitalsourcetype/digitalCapture\",\"softwareAgent\":{\"name\":\""@
        + spec_escape(app_name) + "\",\"version\":\"0.1.0\"}}]}}"@
}

/// The `stds.schema-org.CreativeWork` assertion: author attribution to the
/// application.
pub open spec fn spec_creative_work_assertion(app_name: Seq<char>) -> Seq<char> {
    "{\"label\":\"stds.schema-org.CreativeWork\",\"data\":{\"@context\":\"https://schema.org\",\"@type\":\"CreativeWork\",\"author\":[{\"@type\":\"Organization\",\"name\":\""@
        + spec_escape(app_name) + "\"}]}}"@
}

/// GPS extension of the EXIF assertion: present exactly when both
/// coordinates are supplied.
pub open spec fn spec_gps_fields(c: CaptureContextView) -> Seq<char> {
    if c.latitude_microdeg is Some && c.longitude_microdeg is Some {
        ",\"exif:GPSVersionID\":\"2.2.0.0\",\"exif:GPSLatitude\":\""@ + spec_dms(
            c.latitude_microdeg->0,
            true,
        ) + "\",\"exif:GPSLongitude\":\""@ + spec_dms(c.longitude_microdeg->0, false)
            + "\",\"exif:GPSTimeStamp\":\""@ + spec_escape(c.captured_at_iso8601) + "\""@
    } else {
        Seq::empty()
    }
}

/// Camera fields of the `stds.exif` assertion: manufacturer, model and
/// original timestamp; everything before the optional GPS fields.
pub open spec fn spec_exif_base(c: CaptureContextView) -> Seq<char> {
    "{\"label\":\"stds.exif\",\"data\":{\"@context\":{\"exif\":\"http://ns.adobe.com/exif/1.0/\"},\"exif:Make\":\""@
        + spec_escape(spec_make(c.device_model)) + "\",\"exif:Model\":\""@ + spec_escape(
        c.device_model,
    ) + "\",\"exif:DateTimeOriginal\":\""@ + spec_escape(c.captured_at_iso8601) + "\""@
}

/// The `stds.exif` assertion: camera fields, extended with GPS fields when
/// both coordinates are present.
pub open spec fn spec_exif_assertion(c: CaptureContextView) -> Seq<char> {
    spec_exif_base(c) + spec_gps_fields(c) + "}}"@
}

/// The `attestation.device` assertion: device model, OS version and trust
/// level.
pub open spec fn spec_device_assertion(c: CaptureContextView) -> Seq<char> {
    "{\"label\":\"attestation.device\",\"data\":{\"deviceModel\":\""@ + spec_escape(c.device_model)
        + "\",\"osVersion\":\""@ + spec_escape(c.os_version) + "\",\"trustLevel\":\""@
        + spec_escape(c.trust_level) + "\"}}"@
}

/// The `attestation.capture_time` assertion: the capture timestamp.
pub open spec fn spec_capture_time_assertion(ts: Seq<char>) -> Seq<char> {
    "{\"label\":\"attestation.capture_time\",\"data\":{\"timestamp\":\""@ + spec_escape(ts)
        + "\"}}"@
}

/// The `attestation.trust` assertion: trust level and anti-replay nonce.
pub open spec fn spec_trust_assertion(trust_level: Seq<char>, nonce: Seq<char>) -> Seq<char> {
    "{\"label\":\"attestation.trust\",\"data\":{\"trustLevel\":\""@ + spec_escape(trust_level)
        + "\",\"nonce\":\""@ + spec_escape(nonce) + "\"}}"@
}

/// Document head: title with the capture timestamp, the fixed `image/jpeg`
/// format, the claim-generator identity, and the opening of the assertion
/// list.
pub open spec fn spec_manifest_header(c: CaptureContextView) -> Seq<char> {
    "{\"title\":\"Attested Photo "@ + spec_escape(c.captured_at_iso8601)
        + "\",\"format\":\"image/jpeg\",\"claim_generator_info\":[{\"name\":\""@ + spec_escape(
        c.app_name,
    ) + "\",\"version\":\"0.1.0\"}],\"assertions\":["@
}

/// Header and the five fixed assertions, in their fixed order; everything of
/// the document but the optional trust assertion and the closing brackets.
pub open spec fn spec_manifest_prefix(c: CaptureContextView) -> Seq<char> {
    spec_manifest_header(c) + spec_actions_assertion(c.app_name) + ","@
        + spec_creative_work_assertion(c.app_name) + ","@ + spec_exif_assertion(c) + ","@
        + spec_device_assertion(c) + ","@ + spec_capture_time_assertion(c.captured_at_iso8601)
}

/// The trust assertion with its separating comma, exactly when a nonce is
/// supplied.
pub open spec fn spec_trust_suffix(c: CaptureContextView) -> Seq<char> {
    if c.nonce is Some {
        ","@ + spec_trust_assertion(c.trust_level, c.nonce->0)
    } else {
        Seq::empty()
    }
}

/// The whole manifest document for a capture context.
pub open spec fn spec_manifest_json(c: CaptureContextView) -> Seq<char> {
    spec_manifest_prefix(c) + spec_trust_suffix(c) + "]}"@
}

/// Builds the `c2pa.actions` assertion.
fn actions_assertion(app_name: &str) -> (r: String)
    ensures
        r@ == spec_actions_assertion(app_name@),
{
    let mut r = String::from_str(
        "{\"label\":\"c2pa.actions\",\"data\":{\"actions\":[{\"action\":\"c2pa.created\",\"digitalSourceType\":\"http://cv.iptc.org/newscodes/digitalsourcetype/digitalCapture\",\"softwareAgent\":{\"name\":\"",
    );
    push_json_escaped(&mut r, app_name);
    r.append("\",\"version\":\"0.1.0\"}}]}}");
    r
}

/// Builds the `stds.schema-org.CreativeWork` assertion.
fn creative_work_assertion(app_name: &str) -> (r: String)
    ensures
        r@ == spec_creative_work_assertion(app_name@),
{
    let mut r = String::from_str(
        "{\"label\":\"stds.schema-org.CreativeWork\",\"data\":{\"@context\":\"https://schema.org\",\"@type\":\"CreativeWork\",\"author\":[{\"@type\":\"Organization\",\"name\":\"",
    );
    push_json_escaped(&mut r, app_name);
    r.append("\"}]}}");
    r
}

/// Builds the `stds.exif` assertion, with GPS fields when both coordinates
/// are present.
fn exif_assertion(context: &CaptureContext) -> (r: String)
    ensures
        r@ == spec_exif_assertion(context@),
{
    let make = device_make(context.device_model.as_str());
    let mut r = String::from_str(
        "{\"label\":\"stds.exif\",\"data\":{\"@context\":{\"exif\":\"http://ns.adobe.com/exif/1.0/\"},\"exif:Make\":\"",
    );
    push_json_escaped(&mut r, make.as_str());
    r.append("\",\"exif:Model\":\"");
    push_json_escaped(&mut r, context.device_model.as_str());
    r.append("\",\"exif:DateTimeOriginal\":\"");
    push_json_escaped(&mut r, context.captured_at_iso8601.as_str());
    r.append("\"");
    proof {
        assert(r@ =~= spec_exif_base(context@));
    }
    if let Some(lat) = context.latitude_microdeg {
        if let Some(lon) = context.longitude_microdeg {
            r.append(",\"exif:GPSVersionID\":\"2.2.0.0\",\"exif:GPSLatitude\":\"");
            let lat_dms = decimal_to_exif_dms(lat, true);
            r.append(lat_dms.as_str());
            r.append("\",\"exif:GPSLongitude\":\"");
            let lon_dms = decimal_to_exif_dms(lon, false);
            r.append(lon_dms.as_str());
            r.append("\",\"exif:GPSTimeStamp\":\"");
            push_json_escaped(&mut r, context.captured_at_iso8601.as_str());
            r.append("\"");
            proof {
                assert(r@ =~= spec_exif_base(context@) + spec_gps_fields(context@));
            }
        }
    }
    proof {
        assert(r@ =~= spec_exif_base(context@) + spec_gps_fields(context@));
    }
    r.append("}}");
    r
}

/// Builds the `attestation.device` assertion.
fn device_assertion(context: &CaptureContext) -> (r: String)
    ensures
        r@ == spec_device_assertion(context@),
{
    let mut r = String::from_str("{\"label\":\"attestation.device\",\"data\":{\"deviceModel\":\"");
    push_json_escaped(&mut r, context.device_model.as_str());
    r.append("\",\"osVersion\":\"");
    push_json_escaped(&mut r, context.os_version.as_str());
    r.append("\",\"trustLevel\":\"");
    push_json_escaped(&mut r, context.trust_level.as_str());
    r.append("\"}}");
    r
}

/// Builds the `attestation.capture_time` assertion.
fn capture_time_assertion(ts: &str) -> (r: String)
    ensures
        r@ == spec_capture_time_assertion(ts@),
{
    let mut r = String::from_str(
        "{\"label\":\"attestation.capture_time\",\"data\":{\"timestamp\":\"",
    );
    push_json_escaped(&mut r, ts);
    r.append("\"}}");
    r
}

/// Builds the `attestation.trust` assertion.
fn trust_assertion(trust_level: &str, nonce: &str) -> (r: String)
    ensures
        r@ == spec_trust_assertion(trust_level@, nonce@),
{
    let mut r = String::from_str("{\"label\":\"attestation.trust\",\"data\":{\"trustLevel\":\"");
    push_json_escaped(&mut r, trust_level);
    r.append("\",\"nonce\":\"");
    push_json_escaped(&mut r, nonce);
    r.append("\"}}");
    r
}

/// Builds the manifest JSON document for a capture context: pure and
/// deterministic, the same context always yields the identical string.
pub fn build_manifest_definition(context: &CaptureContext) -> (r: String)
    ensures
        r@ == spec_manifest_json(context@),
{
    let mut r = String::from_str("{\"title\":\"Attested Photo ");
    push_json_escaped(&mut r, context.captured_at_iso8601.as_str());
    r.append("\",\"format\":\"image/jpeg\",\"claim_generator_info\":[{\"name\":\"");
    push_json_escaped(&mut r, context.app_name.as_str());
    r.append("\",\"version\":\"0.1.0\"}],\"assertions\":[");
    proof {
        assert(r@ =~= spec_manifest_header(context@));
    }
    let a1 = actions_assertion(context.app_name.as_str());
    r.append(a1.as_str());
    r.append(",");
    let a2 = creative_work_assertion(context.app_name.as_str());
    r.append(a2.as_str());
    r.append(",");
    let a3 = exif_assertion(context);
    r.append(a3.as_str());
    r.append(",");
    let a4 = device_assertion(context);
    r.append(a4.as_str());
    r.append(",");
    let a5 = capture_time_assertion(context.captured_at_iso8601.as_str());
    r.append(a5.as_str());
    proof {
        assert(r@ =~= spec_manifest_prefix(context@));
    }
    if let Some(nonce) = &context.nonce {
        r.append(",");
        let a6 = trust_assertion(context.trust_level.as_str(), nonce.as_str());
        r.append(a6.as_str());
        proof {
            assert(r@ =~= spec_manifest_prefix(context@) + spec_trust_suffix(context@));
        }
    }
    proof {
        assert(r@ =~= spec_manifest_prefix(context@) + spec_trust_suffix(context@));
    }
    r.append("]}");
    proof {
        assert(r@ =~= spec_manifest_json(context@));
    }
    r
}

/// ManifestBuilder determinism: the manifest document is a function of the
/// capture context alone; equal contexts yield the identical string.
pub proof fn lemma_manifest_deterministic(c1: CaptureContextView, c2: CaptureContextView)
    requires
        c1 == c2,
    ensures
        spec_manifest_json(c1) == spec_manifest_json(c2),
{
}

/// ManifestBuilder law: supplying a nonce appends exactly the trust
/// assertion, separated by a comma, before the closing brackets; the header
/// and the five fixed assertions are unchanged.
pub proof fn lemma_nonce_toggles_only_trust(c: CaptureContextView, nonce: Seq<char>)
    ensures
        ({
            let with_nonce = CaptureContextView { nonce: Some(nonce), ..c };
            let without = CaptureContextView { nonce: None, ..c };
            spec_manifest_prefix(with_nonce) == spec_manifest_prefix(without)
                && spec_manifest_json(without) == spec_manifest_prefix(without) + "]}"@
                && spec_manifest_json(with_nonce) == spec_manifest_prefix(without) + (","@
                + spec_trust_assertion(c.trust_level, nonce)) + "]}"@
        }),
{
    let with_nonce = CaptureContextView { nonce: Some(nonce), ..c };
    let without = CaptureContextView { nonce: None, ..c };
    assert(spec_manifest_json(without) =~= spec_manifest_prefix(without) + "]}"@);
    assert(spec_manifest_json(with_nonce) =~= spec_manifest_prefix(without) + (","@
        + spec_trust_assertion(c.trust_level, nonce)) + "]}"@);
}

/// ManifestBuilder law: supplying both coordinates extends exactly the EXIF
/// assertion with the GPS fields; the camera fields, the other assertions,
/// the header and the trust suffix are unchanged. With either coordinate
/// missing, no GPS fields appear.
pub proof fn lemma_gps_toggles_only_exif_fields(c: CaptureContextView, lat: int, lon: int)
    ensures
        ({
            let with_gps = CaptureContextView {
                latitude_microdeg: Some(lat),
                longitude_microdeg: Some(lon),
                ..c
            };
            let without = CaptureContextView {
                latitude_microdeg: None,
                longitude_microdeg: None,
                ..c
            };
            spec_exif_base(with_gps) == spec_exif_base(without) && spec_gps_fields(without)
                == Seq::<char>::empty() && spec_exif_assertion(with_gps) == spec_exif_base(without)
                + spec_gps_fields(with_gps) + "}}"@ && spec_manifest_header(with_gps)
                == spec_manifest_header(without) && spec_actions_assertion(with_gps.app_name)
                == spec_actions_assertion(without.app_name) && spec_creative_work_assertion(
                with_gps.app_name,
            ) == spec_creative_work_assertion(without.app_name) && spec_device_assertion(with_gps)
                == spec_device_assertion(without) && spec_capture_time_assertion(
                with_gps.captured_at_iso8601,
            ) == spec_capture_time_assertion(without.captured_at_iso8601) && spec_trust_suffix(
                with_gps,
            ) == spec_trust_suffix(without)
        }),
{
}

} // verus!
