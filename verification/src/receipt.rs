//! `tatara-receipt/v1` — the typed receipt envelope every Job emits to
//! prove its work was done.
//!
//! Wire format (snake_case):
//!
//! ```yaml
//! version: tatara-receipt/v1
//! kind: closed-loop-auth
//! composed_root: <26-char hex>
//! intent_hash:   <hex>
//! artifact_hash: <hex>
//! control_hash:  <hex>
//! generated_at:  2026-05-19T22:00:00Z
//! process_ref:   "demo-test/ephemeral-demo"   # optional
//! evidence:      { ... }                      # optional, free-form
//! ```
//!
//! The composed root is 26 lowercase hex characters: the hex of the
//! first 13 bytes of the BLAKE3 digest of the domain tag followed by the
//! artifact, control, intent and previous root pillars, each separated
//! by a newline.

use crate::outside::{json_is_null, json_null, utc_now, Timestamp};
use crate::text::{owned, str_eq, IntoText};
use vstd::prelude::*;
use vstd::string::StringSliceAdditionalSpecFns;
use vstd::utf8::*;

verus! {

broadcast use encode_utf8_decode_utf8;

/// Canonical version string; parsers refuse anything else.
pub const RECEIPT_VERSION: &'static str = "tatara-receipt/v1";

/// Suffix appended to a Job's name to form its default receipt
/// ConfigMap name.
pub const RECEIPT_CM_SUFFIX: &'static str = "-receipt";

/// Domain tag that opens every composed-root preimage.
pub const DOMAIN_TAG: &'static str = "tatara-process/v1alpha1\n";

/// Number of leading digest bytes the composed root carries (two hex
/// characters each, 26 in all).
pub const ROOT_DIGEST_BYTES: usize = 13;

/// Separator between the pillars of the preimage.
pub const PILLAR_SEPARATOR: &'static str = "\n";

/// The receipt ConfigMap name for a Job: `<job_name>-receipt`.
pub fn default_receipt_config_map_name(job_name: &str) -> (s: String)
    ensures
        s@ == job_name@ + RECEIPT_CM_SUFFIX@,
{
    let mut out = String::new();
    out.append(job_name);
    out.append(RECEIPT_CM_SUFFIX);
    out
}

/// The four receipt kinds the substrate itself emits.
#[derive(Clone, Copy, Debug, PartialEq, Eq, Hash, Structural)]
pub enum ReceiptKind {
    /// Closed-loop auth probe.
    ClosedLoopAuth,
    /// Schema / migration run.
    DbMigration,
    /// Test suite run.
    TestSuite,
    /// Nix build.
    NixBuild,
}

/// A receipt-kind label outside the closed set; carries the input
/// verbatim.
#[derive(Clone, Debug, PartialEq, Eq)]
pub struct UnknownReceiptKind(pub String);

impl ReceiptKind {
    /// Every known kind, in declaration order.
    pub const ALL: [ReceiptKind; 4] = [
        ReceiptKind::ClosedLoopAuth,
        ReceiptKind::DbMigration,
        ReceiptKind::TestSuite,
        ReceiptKind::NixBuild,
    ];

    /// Canonical kebab-case kind.
    pub open spec fn label(self) -> Seq<char> {
        match self {
            ReceiptKind::ClosedLoopAuth => "closed-loop-auth"@,
            ReceiptKind::DbMigration => "db-migration"@,
            ReceiptKind::TestSuite => "test-suite"@,
            ReceiptKind::NixBuild => "nix-build"@,
        }
    }

    /// The kind whose label is `s`, if any.
    pub open spec fn from_label(s: Seq<char>) -> Option<ReceiptKind> {
        if s == ReceiptKind::ClosedLoopAuth.label() {
            Some(ReceiptKind::ClosedLoopAuth)
        } else if s == ReceiptKind::DbMigration.label() {
            Some(ReceiptKind::DbMigration)
        } else if s == ReceiptKind::TestSuite.label() {
            Some(ReceiptKind::TestSuite)
        } else if s == ReceiptKind::NixBuild.label() {
            Some(ReceiptKind::NixBuild)
        } else {
            None
        }
    }

    /// Canonical kebab-case kind.
    pub fn as_str(self) -> (s: &'static str)
        ensures
            s@ == self.label(),
    {
        match self {
            ReceiptKind::ClosedLoopAuth => "closed-loop-auth",
            ReceiptKind::DbMigration => "db-migration",
            ReceiptKind::TestSuite => "test-suite",
            ReceiptKind::NixBuild => "nix-build",
        }
    }

    /// The label as an owned string (the text form of the kind).
    pub fn to_string(self) -> (s: String)
        ensures
            s@ == self.label(),
    {
        owned(self.as_str())
    }

    /// Parse a kind (exact, case-sensitive); open kinds are rejected
    /// verbatim.
    pub fn parse_label(s: &str) -> (r: Result<ReceiptKind, UnknownReceiptKind>)
        ensures
            match r {
                Ok(k) => ReceiptKind::from_label(s@) == Some(k),
                Err(e) => ReceiptKind::from_label(s@) is None && e.0@ == s@,
            },
    {
        if str_eq(s, "closed-loop-auth") {
            Ok(ReceiptKind::ClosedLoopAuth)
        } else if str_eq(s, "db-migration") {
            Ok(ReceiptKind::DbMigration)
        } else if str_eq(s, "test-suite") {
            Ok(ReceiptKind::TestSuite)
        } else if str_eq(s, "nix-build") {
            Ok(ReceiptKind::NixBuild)
        } else {
            Err(UnknownReceiptKind(owned(s)))
        }
    }
}

impl core::str::FromStr for ReceiptKind {
    type Err = UnknownReceiptKind;

    fn from_str(s: &str) -> (r: Result<ReceiptKind, UnknownReceiptKind>)
        ensures
            match r {
                Ok(p) => ReceiptKind::from_label(s@) == Some(p),
                Err(e) => ReceiptKind::from_label(s@) is None && e.0@ == s@,
            },
    {
        ReceiptKind::parse_label(s)
    }
}

impl IntoText for ReceiptKind {
    open spec fn text(&self) -> Seq<char> {
        self.label()
    }

    fn into_text(self) -> (s: String) {
        self.to_string()
    }
}

impl From<ReceiptKind> for String {
    /// The kind's wire label as an owned string.
    fn from(k: ReceiptKind) -> (s: String)
        ensures
            s@ == k.label(),
    {
        k.to_string()
    }
}

impl vstd::std_specs::convert::FromSpecImpl<ReceiptKind> for String {
    open spec fn obeys_from_spec() -> bool {
        false
    }

    open spec fn from_spec(k: ReceiptKind) -> String {
        choose|s: String| s@ == k.label()
    }
}

impl From<ReceiptKind> for &'static str {
    /// The kind's wire label.
    fn from(k: ReceiptKind) -> (s: &'static str)
        ensures
            s@ == k.label(),
    {
        k.as_str()
    }
}

impl vstd::std_specs::convert::FromSpecImpl<ReceiptKind> for &'static str {
    open spec fn obeys_from_spec() -> bool {
        false
    }

    open spec fn from_spec(k: ReceiptKind) -> &'static str {
        choose|s: &'static str| s@ == k.label()
    }
}

/// The typed receipt envelope.
#[derive(Clone, Debug, PartialEq, Eq)]
pub struct ReceiptEnvelope {
    pub version: String,
    pub kind: String,
    pub composed_root: String,
    pub intent_hash: String,
    pub artifact_hash: String,
    pub control_hash: String,
    pub generated_at: Timestamp,
    pub process_ref: Option<String>,
    pub evidence: serde_json::Value,
}

/// Why a receipt was refused.
#[derive(Clone, Debug, PartialEq, Eq)]
pub enum ReceiptError {
    /// The payload is not a JSON receipt.
    InvalidJson(String),
    /// The payload is not a YAML receipt.
    InvalidYaml(String),
    /// The version is not `RECEIPT_VERSION`; carries the version found.
    WrongVersion(String),
    /// A required pillar is empty; carries its field name.
    MissingField(&'static str),
    /// The kind is empty.
    EmptyKind,
    /// The composed root differs from the expected one.
    RootMismatch { got: String, want: String },
}

/// Named result of `blake3::hash` on the given bytes (the 32-byte digest).
pub uninterp spec fn blake3_digest(data: Seq<u8>) -> Seq<u8>;

/// `blake3::hash`: the BLAKE3 digest of `data`, 32 bytes long. Hashing
/// the concatenation of the pieces equals feeding them one by one to a
/// `blake3::Hasher`, so the digest is named as a function of all bytes.
#[verifier::external_body]
fn blake3_hash(data: &[u8]) -> (r: Vec<u8>)
    ensures
        r@ == blake3_digest(data@),
        r@.len() == 32,
{
    blake3::hash(data).as_bytes().to_vec()
}

/// The lowercase hex digit of a nibble.
pub open spec fn hex_digit(n: int) -> char {
    if n < 10 {
        (48 + n) as char
    } else {
        (87 + n) as char
    }
}

/// Lowercase hex encoding: two digits per byte, high nibble first.
pub open spec fn hex_lower(bytes: Seq<u8>) -> Seq<char>
    decreases bytes.len(),
{
    if bytes.len() == 0 {
        Seq::<char>::empty()
    } else {
        seq![hex_digit((bytes[0] / 16) as int), hex_digit((bytes[0] % 16) as int)] + hex_lower(bytes.drop_first())
    }
}

/// `hex::encode`: the lowercase hex encoding of `bytes`.
#[verifier::external_body]
fn hex_encode(bytes: &[u8]) -> (s: String)
    ensures
        s@ == hex_lower(bytes@),
{
    hex::encode(bytes)
}

/// The hex encoding has two characters per byte.
pub proof fn lemma_hex_len(bytes: Seq<u8>)
    ensures
        hex_lower(bytes).len() == 2 * bytes.len(),
    decreases bytes.len(),
{
    if bytes.len() > 0 {
        lemma_hex_len(bytes.drop_first());
    }
}

/// The characters of an optional pillar, absent read as empty.
pub open spec fn pillar_text(p: Option<Seq<char>>) -> Seq<char> {
    match p {
        Some(s) => s,
        None => Seq::<char>::empty(),
    }
}

/// The characters of an optional string slice.
pub open spec fn opt_text(o: Option<&str>) -> Option<Seq<char>> {
    match o {
        Some(s) => Some(s@),
        None => None,
    }
}

/// The bytes hashed into a composed root.
pub open spec fn root_preimage(
    artifact: Seq<char>,
    control: Option<Seq<char>>,
    intent: Seq<char>,
    previous: Option<Seq<char>>,
) -> Seq<u8> {
    encode_utf8(DOMAIN_TAG@) + encode_utf8(artifact) + encode_utf8(PILLAR_SEPARATOR@)
        + encode_utf8(pillar_text(control)) + encode_utf8(PILLAR_SEPARATOR@) + encode_utf8(intent)
        + encode_utf8(PILLAR_SEPARATOR@) + encode_utf8(pillar_text(previous))
}

/// The composed root of the pillars: hex of the first
/// `ROOT_DIGEST_BYTES` bytes of the BLAKE3 digest of the preimage.
pub open spec fn root_text(
    artifact: Seq<char>,
    control: Option<Seq<char>>,
    intent: Seq<char>,
    previous: Option<Seq<char>>,
) -> Seq<char> {
    hex_lower(
        blake3_digest(root_preimage(artifact, control, intent, previous)).subrange(
            0,
            ROOT_DIGEST_BYTES as int,
        ),
    )
}

/// The empty-means-absent reading of a pillar.
pub open spec fn absent_if_empty(s: Seq<char>) -> Option<Seq<char>> {
    if s.len() == 0 {
        None
    } else {
        Some(s)
    }
}

/// Appends the bytes of `s` to `v`.
fn push_bytes(v: &mut Vec<u8>, s: &str)
    ensures
        final(v)@ == old(v)@ + s.spec_bytes(),
{
    let b = s.as_bytes();
    let n = b.len();
    let ghost start = v@;
    let mut i: usize = 0;
    while i < n
        invariant
            n == b@.len(),
            b@ == s.spec_bytes(),
            0 <= i <= n,
            v@ == start + b@.subrange(0, i as int),
        decreases n - i,
    {
        v.push(b[i]);
        i = i + 1;
        assert(v@ =~= start + b@.subrange(0, i as int));
    }
    assert(b@.subrange(0, n as int) =~= b@);
}

/// The composed root for the given pillars (an absent pillar is hashed
/// as the empty string).
pub fn compose_root(
    artifact: &str,
    control: Option<&str>,
    intent: &str,
    previous: Option<&str>,
) -> (r: String)
    ensures
        r@ == root_text(artifact@, opt_text(control), intent@, opt_text(previous)),
        r@.len() == 26,
{
    proof {
        reveal_strlit("");
    }
    let control_text: &str = match control {
        Some(c) => c,
        None => "",
    };
    let previous_text: &str = match previous {
        Some(p) => p,
        None => "",
    };
    let mut pre: Vec<u8> = Vec::new();
    push_bytes(&mut pre, DOMAIN_TAG);
    push_bytes(&mut pre, artifact);
    push_bytes(&mut pre, PILLAR_SEPARATOR);
    push_bytes(&mut pre, control_text);
    push_bytes(&mut pre, PILLAR_SEPARATOR);
    push_bytes(&mut pre, intent);
    push_bytes(&mut pre, PILLAR_SEPARATOR);
    push_bytes(&mut pre, previous_text);
    assert(pre@ =~= root_preimage(artifact@, opt_text(control), intent@, opt_text(previous)));
    let digest = blake3_hash(pre.as_slice());
    let mut head: Vec<u8> = Vec::new();
    let mut i: usize = 0;
    while i < ROOT_DIGEST_BYTES
        invariant
            digest@.len() == 32,
            0 <= i <= ROOT_DIGEST_BYTES,
            head@ == digest@.subrange(0, i as int),
        decreases ROOT_DIGEST_BYTES - i,
    {
        head.push(digest[i]);
        i = i + 1;
        assert(head@ =~= digest@.subrange(0, i as int));
    }
    proof {
        lemma_hex_len(head@);
    }
    hex_encode(head.as_slice())
}

/// `((acc | (x ^ y)) == 0)` exactly when `acc` is zero and `x == y`.
proof fn lemma_or_xor_zero(acc: u8, x: u8, y: u8)
    by (bit_vector)
    ensures
        ((acc | (x ^ y)) == 0u8) == (acc == 0u8 && x == y),
{
}

/// Byte-slice equality that inspects every byte regardless of where the
/// first difference is.
pub fn constant_time_eq(a: &[u8], b: &[u8]) -> (r: bool)
    ensures
        r == (a@ == b@),
{
    if a.len() != b.len() {
        return false;
    }
    let n = a.len();
    let mut acc: u8 = 0;
    let mut i: usize = 0;
    while i < n
        invariant
            n == a@.len(),
            n == b@.len(),
            0 <= i <= n,
            (acc == 0) == (forall|j: int| 0 <= j < i ==> a@[j] == b@[j]),
        decreases n - i,
    {
        proof {
            lemma_or_xor_zero(acc, a@[i as int], b@[i as int]);
        }
        acc = acc | (a[i] ^ b[i]);
        i = i + 1;
    }
    if acc == 0 {
        assert(a@ =~= b@);
    }
    acc == 0
}

/// `Some(s)` when `s` is non-empty, `None` when it is empty.
pub fn empty_to_none(s: &str) -> (r: Option<&str>)
    ensures
        opt_text(r) == absent_if_empty(s@),
{
    if s.is_empty() {
        None
    } else {
        Some(s)
    }
}

/// Rejects an empty required pillar with its field name.
pub fn require_nonempty(field: &'static str, value: &str) -> (r: Result<(), ReceiptError>)
    ensures
        value@.len() == 0 ==> r == Err::<(), ReceiptError>(ReceiptError::MissingField(field)),
        value@.len() > 0 ==> r is Ok,
{
    if value.is_empty() {
        return Err(ReceiptError::MissingField(field));
    }
    Ok(())
}

impl ReceiptEnvelope {
    /// The composed root is consistent with the pillars and `previous`.
    pub open spec fn root_consistent(&self, previous: Option<Seq<char>>) -> bool {
        self.composed_root@ == root_text(
            self.artifact_hash@,
            absent_if_empty(self.control_hash@),
            self.intent_hash@,
            previous,
        )
    }

    /// The outcome of the schema-level checks, in their order: version,
    /// kind, then the required pillars `composed_root`, `intent_hash`,
    /// `artifact_hash`.
    pub open spec fn shape_error(&self) -> Option<ReceiptError> {
        if self.version@ != RECEIPT_VERSION@ {
            Some(ReceiptError::WrongVersion(self.version))
        } else if self.kind@.len() == 0 {
            Some(ReceiptError::EmptyKind)
        } else if self.composed_root@.len() == 0 {
            Some(ReceiptError::MissingField("composed_root"))
        } else if self.intent_hash@.len() == 0 {
            Some(ReceiptError::MissingField("intent_hash"))
        } else if self.artifact_hash@.len() == 0 {
            Some(ReceiptError::MissingField("artifact_hash"))
        } else {
            None
        }
    }

    /// Build a receipt for the given pillars stamped `now`: current
    /// version, the kind, the composed root over the pillars and
    /// `previous_root` (an empty control hash counts as absent), no
    /// process reference, null evidence.
    pub fn build_at(
        kind: impl IntoText,
        intent_hash: impl IntoText,
        artifact_hash: impl IntoText,
        control_hash: impl IntoText,
        previous_root: Option<&str>,
        now: Timestamp,
    ) -> (r: ReceiptEnvelope)
        ensures
            r.version@ == RECEIPT_VERSION@,
            r.kind@ == kind.text(),
            r.intent_hash@ == intent_hash.text(),
            r.artifact_hash@ == artifact_hash.text(),
            r.control_hash@ == control_hash.text(),
            r.root_consistent(opt_text(previous_root)),
            r.composed_root@.len() == 26,
            r.generated_at == now,
            json_is_null(r.evidence),
            r.process_ref is None,
    {
        let intent_hash = intent_hash.into_text();
        let artifact_hash = artifact_hash.into_text();
        let control_hash = control_hash.into_text();
        let composed_root = compose_root(
            artifact_hash.as_str(),
            empty_to_none(control_hash.as_str()),
            intent_hash.as_str(),
            previous_root,
        );
        ReceiptEnvelope {
            version: owned(RECEIPT_VERSION),
            kind: kind.into_text(),
            composed_root,
            intent_hash,
            artifact_hash,
            control_hash,
            generated_at: now,
            process_ref: None,
            evidence: json_null(),
        }
    }

    /// `build_at` stamped with the wall clock read once at the call.
    pub fn build(
        kind: impl IntoText,
        intent_hash: impl IntoText,
        artifact_hash: impl IntoText,
        control_hash: impl IntoText,
        previous_root: Option<&str>,
    ) -> (r: ReceiptEnvelope)
        ensures
            r.version@ == RECEIPT_VERSION@,
            r.kind@ == kind.text(),
            r.intent_hash@ == intent_hash.text(),
            r.artifact_hash@ == artifact_hash.text(),
            r.control_hash@ == control_hash.text(),
            r.root_consistent(opt_text(previous_root)),
            r.composed_root@.len() == 26,
            json_is_null(r.evidence),
            r.process_ref is None,
    {
        ReceiptEnvelope::build_at(
            kind,
            intent_hash,
            artifact_hash,
            control_hash,
            previous_root,
            utc_now(),
        )
    }

    /// A decoded receipt accepted when its shape is valid, refused with
    /// the first shape error otherwise.
    pub fn validated(env: ReceiptEnvelope) -> (r: Result<ReceiptEnvelope, ReceiptError>)
        ensures
            match env.shape_error() {
                Some(e) => r == Err::<ReceiptEnvelope, ReceiptError>(e),
                None => r == Ok::<ReceiptEnvelope, ReceiptError>(env),
            },
    {
        match env.verify_shape() {
            Ok(()) => Ok(env),
            Err(e) => Err(e),
        }
    }

    /// The outcome of reading a payload as JSON first and as YAML second:
    /// the JSON outcome when it is accepted, the YAML outcome otherwise.
    pub fn json_then_yaml(
        json: Result<ReceiptEnvelope, ReceiptError>,
        yaml: Result<ReceiptEnvelope, ReceiptError>,
    ) -> (r: Result<ReceiptEnvelope, ReceiptError>)
        ensures
            r == (if json is Ok {
                json
            } else {
                yaml
            }),
    {
        match json {
            Ok(env) => Ok(env),
            Err(_) => yaml,
        }
    }

    /// Schema-level checks: correct version, non-empty kind, non-empty
    /// required pillars (the control hash may be empty).
    pub fn verify_shape(&self) -> (r: Result<(), ReceiptError>)
        ensures
            match self.shape_error() {
                Some(e) => r == Err::<(), ReceiptError>(e),
                None => r is Ok,
            },
    {
        if !str_eq(self.version.as_str(), RECEIPT_VERSION) {
            return Err(ReceiptError::WrongVersion(self.version.clone()));
        }
        if self.kind.as_str().is_empty() {
            return Err(ReceiptError::EmptyKind);
        }
        require_nonempty("composed_root", self.composed_root.as_str())?;
        require_nonempty("intent_hash", self.intent_hash.as_str())?;
        require_nonempty("artifact_hash", self.artifact_hash.as_str())?;
        Ok(())
    }

    /// Does the composed root match the pillars, chained onto
    /// `expected_previous_root`?
    pub fn verify_root(&self, expected_previous_root: Option<&str>) -> (b: bool)
        ensures
            b == self.root_consistent(opt_text(expected_previous_root)),
    {
        let want = compose_root(
            self.artifact_hash.as_str(),
            self.control_hash_opt(),
            self.intent_hash.as_str(),
            expected_previous_root,
        );
        let got = self.composed_root.as_str();
        let want_text = want.as_str();
        let eq = constant_time_eq(want_text.as_bytes(), got.as_bytes());
        proof {
            if want@ == self.composed_root@ {
                assert(want_text.spec_bytes() == got.spec_bytes());
            }
            if eq {
                assert(decode_utf8(encode_utf8(want@)) == want@);
                assert(decode_utf8(encode_utf8(self.composed_root@)) == self.composed_root@);
            }
        }
        eq
    }

    /// The root unchanged when no root is expected or the expected root
    /// equals it; a mismatch otherwise.
    pub fn expect_root(&self, expected: Option<&str>) -> (r: Result<&str, ReceiptError>)
        ensures
            match expected {
                None => r matches Ok(s) && s@ == self.composed_root@,
                Some(want) => if want@ == self.composed_root@ {
                    r matches Ok(s) && s@ == self.composed_root@
                } else {
                    r matches Err(ReceiptError::RootMismatch { got, want: w }) && got
                        == self.composed_root && w@ == want@
                },
            },
    {
        if let Some(want) = expected {
            if !str_eq(want, self.composed_root.as_str()) {
                return Err(
                    ReceiptError::RootMismatch { got: self.composed_root.clone(), want: owned(want) },
                );
            }
        }
        Ok(self.composed_root.as_str())
    }

    /// The typed kind when the wire kind is one of the known kinds.
    pub fn known_kind(&self) -> (k: Option<ReceiptKind>)
        ensures
            k == ReceiptKind::from_label(self.kind@),
    {
        match ReceiptKind::parse_label(self.kind.as_str()) {
            Ok(k) => Some(k),
            Err(_) => None,
        }
    }

    /// The control hash, `None` when it is empty (no control step ran).
    pub fn control_hash_opt(&self) -> (r: Option<&str>)
        ensures
            opt_text(r) == absent_if_empty(self.control_hash@),
    {
        empty_to_none(self.control_hash.as_str())
    }
}

/// Receipt-kind labels are distinct, non-empty and round-trip through
/// the parser.
pub proof fn law_receipt_kind_labels(p: ReceiptKind, q: ReceiptKind, s: Seq<char>)
    ensures
        p.label() == q.label() ==> p == q,
        ReceiptKind::from_label(p.label()) == Some(p),
        ReceiptKind::from_label(s) matches Some(r) ==> r.label() == s,
        ReceiptKind::from_label(Seq::<char>::empty()) is None,
{
    reveal_strlit("closed-loop-auth");
    reveal_strlit("db-migration");
    reveal_strlit("test-suite");
    reveal_strlit("nix-build");
    assert(Seq::<char>::empty().len() == 0);
    assert(ReceiptKind::ClosedLoopAuth.label().len() == 16);
    assert(ReceiptKind::DbMigration.label().len() == 12);
    assert(ReceiptKind::TestSuite.label().len() == 10);
    assert(ReceiptKind::NixBuild.label().len() == 9);
}

/// UTF-8 encoding distributes over concatenation.
proof fn lemma_encode_utf8_concat(a: Seq<char>, b: Seq<char>)
    ensures
        encode_utf8(a + b) == encode_utf8(a) + encode_utf8(b),
    decreases a.len(),
{
    if a.len() == 0 {
        assert(a + b =~= b);
        assert(encode_utf8(a) =~= Seq::<u8>::empty());
        assert(encode_utf8(a) + encode_utf8(b) =~= encode_utf8(b));
    } else {
        lemma_encode_utf8_concat(a.drop_first(), b);
        assert((a + b).drop_first() =~= a.drop_first() + b);
        assert((a + b)[0] == a[0]);
        assert(encode_utf8(a + b) =~= encode_utf8(a) + encode_utf8(b));
    }
}

/// Lowercase hex: two characters per byte, the high nibble first, each
/// nibble written with the digits `0123456789abcdef`.
pub proof fn law_hex_lower(bytes: Seq<u8>)
    ensures
        hex_lower(bytes).len() == 2 * bytes.len(),
        forall|k: int|
            0 <= k < bytes.len() ==> hex_lower(bytes)[2 * k] == "0123456789abcdef"@[(
            #[trigger] bytes[k] / 16) as int] && hex_lower(bytes)[2 * k + 1]
                == "0123456789abcdef"@[(bytes[k] % 16) as int],
    decreases bytes.len(),
{
    reveal_strlit("0123456789abcdef");
    lemma_hex_len(bytes);
    if bytes.len() > 0 {
        law_hex_lower(bytes.drop_first());
        let rest = bytes.drop_first();
        let head = seq![hex_digit((bytes[0] / 16) as int), hex_digit((bytes[0] % 16) as int)];
        assert(hex_lower(bytes) == head + hex_lower(rest));
        assert forall|n: int| 0 <= n < 16 implies hex_digit(n) == "0123456789abcdef"@[n] by {
            reveal_strlit("0123456789abcdef");
        }
        assert forall|k: int| 0 <= k < bytes.len() implies hex_lower(bytes)[2 * k]
            == "0123456789abcdef"@[(#[trigger] bytes[k] / 16) as int] && hex_lower(bytes)[2 * k
            + 1] == "0123456789abcdef"@[(bytes[k] % 16) as int] by {
            if k > 0 {
                assert(bytes[k] == rest[k - 1]);
                assert(hex_lower(bytes)[2 * k] == hex_lower(rest)[2 * (k - 1)]);
                assert(hex_lower(bytes)[2 * k + 1] == hex_lower(rest)[2 * (k - 1) + 1]);
            }
        }
    }
}

/// The composed-root format: the first 13 bytes of the BLAKE3 digest of
/// the UTF-8 text `tatara-process/v1alpha1\n` ++ artifact ++ `\n` ++
/// control ++ `\n` ++ intent ++ `\n` ++ previous (an absent pillar is
/// empty; nothing follows the previous root), written as lowercase hex.
pub proof fn law_root_format(
    artifact: Seq<char>,
    control: Option<Seq<char>>,
    intent: Seq<char>,
    previous: Option<Seq<char>>,
)
    ensures
        root_text(artifact, control, intent, previous) == hex_lower(
            blake3_digest(
                encode_utf8(
                    "tatara-process/v1alpha1\n"@ + artifact + "\n"@ + (if control is Some {
                        control->0
                    } else {
                        Seq::<char>::empty()
                    }) + "\n"@ + intent + "\n"@ + (if previous is Some {
                        previous->0
                    } else {
                        Seq::<char>::empty()
                    }),
                ),
            ).subrange(0, 13),
        ),
{
    let c = pillar_text(control);
    let p = pillar_text(previous);
    let nl = "\n"@;
    assert(PILLAR_SEPARATOR@ == nl);
    assert(DOMAIN_TAG@ == "tatara-process/v1alpha1\n"@);
    let t = DOMAIN_TAG@;
    lemma_encode_utf8_concat(t, artifact);
    lemma_encode_utf8_concat(t + artifact, nl);
    lemma_encode_utf8_concat(t + artifact + nl, c);
    lemma_encode_utf8_concat(t + artifact + nl + c, nl);
    lemma_encode_utf8_concat(t + artifact + nl + c + nl, intent);
    lemma_encode_utf8_concat(t + artifact + nl + c + nl + intent, nl);
    lemma_encode_utf8_concat(t + artifact + nl + c + nl + intent + nl, p);
    assert(root_preimage(artifact, control, intent, previous) =~= encode_utf8(
        t + artifact + nl + c + nl + intent + nl + p,
    ));
}

/// A receipt's root is consistent with an expected previous root exactly
/// when it equals the hex of the first 13 digest bytes over its own
/// pillars chained onto that previous root (an empty control hash and an
/// absent previous root both contribute nothing): a root composed over
/// one previous root is not accepted for another unless the digests
/// agree.
pub proof fn law_root_consistency(e: ReceiptEnvelope, previous: Option<Seq<char>>)
    ensures
        e.root_consistent(previous) <==> e.composed_root@ == hex_lower(
            blake3_digest(
                encode_utf8(
                    "tatara-process/v1alpha1\n"@ + e.artifact_hash@ + "\n"@ + e.control_hash@
                        + "\n"@ + e.intent_hash@ + "\n"@ + (if previous is Some {
                        previous->0
                    } else {
                        Seq::<char>::empty()
                    }),
                ),
            ).subrange(0, 13),
        ),
{
    law_root_format(e.artifact_hash@, absent_if_empty(e.control_hash@), e.intent_hash@, previous);
    assert((if absent_if_empty(e.control_hash@) is Some {
        absent_if_empty(e.control_hash@)->0
    } else {
        Seq::<char>::empty()
    }) =~= e.control_hash@);
}

/// The shape check refuses, in this order: a version other than
/// `tatara-receipt/v1` (reporting the version found), an empty kind, and
/// an empty `composed_root`, `intent_hash` or `artifact_hash` (naming the
/// first empty one); an empty control hash is accepted.
pub proof fn law_shape_check_order(e: ReceiptEnvelope)
    ensures
        e.version@ != "tatara-receipt/v1"@ ==> e.shape_error() == Some(
            ReceiptError::WrongVersion(e.version),
        ),
        (e.version@ == "tatara-receipt/v1"@ && e.kind@.len() == 0) ==> e.shape_error() == Some(
            ReceiptError::EmptyKind,
        ),
        (e.version@ == "tatara-receipt/v1"@ && e.kind@.len() > 0 && e.composed_root@.len() == 0)
            ==> e.shape_error() == Some(ReceiptError::MissingField("composed_root")),
        (e.version@ == "tatara-receipt/v1"@ && e.kind@.len() > 0 && e.composed_root@.len() > 0
            && e.intent_hash@.len() == 0) ==> e.shape_error() == Some(
            ReceiptError::MissingField("intent_hash"),
        ),
        (e.version@ == "tatara-receipt/v1"@ && e.kind@.len() > 0 && e.composed_root@.len() > 0
            && e.intent_hash@.len() > 0 && e.artifact_hash@.len() == 0) ==> e.shape_error()
            == Some(ReceiptError::MissingField("artifact_hash")),
        (e.version@ == "tatara-receipt/v1"@ && e.kind@.len() > 0 && e.composed_root@.len() > 0
            && e.intent_hash@.len() > 0 && e.artifact_hash@.len() > 0) ==> e.shape_error() is None,
{
}

/// An absent pillar is hashed as the empty string: leaving the control
/// or the previous-root pillar out gives the same composed root as
/// passing it empty.
pub proof fn law_absent_pillar_is_empty(
    artifact: Seq<char>,
    control: Option<Seq<char>>,
    intent: Seq<char>,
    previous: Option<Seq<char>>,
)
    ensures
        root_text(artifact, None, intent, previous) == root_text(
            artifact,
            Some(Seq::<char>::empty()),
            intent,
            previous,
        ),
        root_text(artifact, control, intent, None) == root_text(
            artifact,
            control,
            intent,
            Some(Seq::<char>::empty()),
        ),
{
    assert(root_preimage(artifact, None, intent, previous) =~= root_preimage(
        artifact,
        Some(Seq::<char>::empty()),
        intent,
        previous,
    ));
    assert(root_preimage(artifact, control, intent, None) =~= root_preimage(
        artifact,
        control,
        intent,
        Some(Seq::<char>::empty()),
    ));
}

/// A receipt with the current version, a non-empty kind, non-empty
/// intent and artifact pillars and a non-empty composed root (every
/// built receipt has a 26-character root) passes the shape check; its
/// control hash may be empty.
pub proof fn law_built_receipt_has_valid_shape(e: ReceiptEnvelope)
    requires
        e.version@ == RECEIPT_VERSION@,
        e.kind@.len() > 0,
        e.intent_hash@.len() > 0,
        e.artifact_hash@.len() > 0,
        e.composed_root@.len() > 0,
    ensures
        e.shape_error() is None,
{
}

} // verus!
