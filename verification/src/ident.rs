//! Identifier model: validated, normalized string identifiers for document
//! types, attributes, locales and titles.
//!
//! A raw identifier is sanitized by trimming surrounding whitespace and
//! lower-casing ASCII letters; it is valid only if it is then non-empty, at
//! most twenty characters, made of letters, digits, `_`, `/` and `-`, and
//! does not start with the reserved internal prefix. The `normalized`
//! projection (`-` to `_`) yields the SQL identifier; the un-normalized form
//! is the external, API-facing id.

use vstd::prelude::*;

use crate::strutil::{
    chars_to_string, is_space, lower_char, spec_is_space, spec_lower_char, str_to_chars,
};

verus! {

/// Trim whitespace from the front of a character sequence.
pub open spec fn spec_trim_front(s: Seq<char>) -> Seq<char>
    decreases s.len(),
{
    if s.len() > 0 && spec_is_space(s[0]) {
        spec_trim_front(s.skip(1))
    } else {
        s
    }
}

/// Trim whitespace from the back of a character sequence.
pub open spec fn spec_trim_back(s: Seq<char>) -> Seq<char>
    decreases s.len(),
{
    if s.len() > 0 && spec_is_space(s.last()) {
        spec_trim_back(s.drop_last())
    } else {
        s
    }
}

/// Sanitization applied before validation: trim both ends, then lower-case.
pub open spec fn spec_sanitize(s: Seq<char>) -> Seq<char> {
    spec_trim_back(spec_trim_front(s)).map_values(|c: char| spec_lower_char(c))
}

/// Sanitization that trims only, for titles.
pub open spec fn spec_trim(s: Seq<char>) -> Seq<char> {
    spec_trim_back(spec_trim_front(s))
}

/// The characters an identifier may consist of.
pub open spec fn spec_is_eligible_char(c: char) -> bool {
    ('A' <= c && c <= 'Z') || ('a' <= c && c <= 'z') || ('0' <= c && c <= '9') || c == '_' || c
        == '/' || c == '-'
}

/// The reserved internal prefix no identifier may start with.
pub open spec fn spec_reserved_prefix() -> Seq<char> {
    seq!['l', 'u', 'm', 'i', 'n', 'a', 'i', 'r', '_']
}

pub open spec fn spec_has_reserved_prefix(s: Seq<char>) -> bool {
    s.len() >= 9 && (forall|i: int| 0 <= i < 9 ==> s[i] == spec_reserved_prefix()[i])
}

/// An identifier is eligible when it is non-empty, consists only of letters,
/// digits, `_`, `/` and `-`, and does not start with the reserved prefix.
pub open spec fn spec_is_eligible_id(s: Seq<char>) -> bool {
    &&& !spec_has_reserved_prefix(s)
    &&& s.len() >= 1
    &&& forall|i: int| 0 <= i < s.len() ==> spec_is_eligible_char(#[trigger] s[i])
}

/// The longest a document type or attribute identifier may be.
pub const MAX_ID_LEN: usize = 20;

/// A sanitized identifier is valid when it is eligible and short enough.
pub open spec fn spec_valid_id(s: Seq<char>) -> bool {
    s.len() >= 1 && s.len() <= MAX_ID_LEN && spec_is_eligible_id(s)
}

/// Replace `-` by `_`: the projection from an external identifier to the SQL
/// identifier used for table and column names.
pub open spec fn spec_normalized(s: Seq<char>) -> Seq<char> {
    s.map_values(|c: char| if c == '-' { '_' } else { c })
}

/// Why an identifier was rejected.
#[derive(Clone, Copy, Debug, PartialEq, Eq, Structural)]
pub enum IdentifierError {
    /// Empty after sanitization.
    Empty,
    /// Longer than `MAX_ID_LEN` characters.
    TooLong,
    /// Holds a character outside the allowed set, or starts with the
    /// reserved prefix.
    NotEligible,
}

fn has_reserved_prefix(v: &Vec<char>) -> (r: bool)
    ensures
        r == spec_has_reserved_prefix(v@),
{
    let r = v.len() >= 9 && v[0] == 'l' && v[1] == 'u' && v[2] == 'm' && v[3] == 'i' && v[4] == 'n'
        && v[5] == 'a' && v[6] == 'i' && v[7] == 'r' && v[8] == '_';
    proof {
        if r {
            assert forall|i: int| 0 <= i < 9 implies v@[i] == spec_reserved_prefix()[i] by {
                assert(spec_reserved_prefix() =~= seq!['l', 'u', 'm', 'i', 'n', 'a', 'i', 'r', '_']);
            }
        } else if v.len() >= 9 {
            assert(spec_reserved_prefix()[0] == 'l');
            assert(spec_reserved_prefix()[1] == 'u');
            assert(spec_reserved_prefix()[2] == 'm');
            assert(spec_reserved_prefix()[3] == 'i');
            assert(spec_reserved_prefix()[4] == 'n');
            assert(spec_reserved_prefix()[5] == 'a');
            assert(spec_reserved_prefix()[6] == 'i');
            assert(spec_reserved_prefix()[7] == 'r');
            assert(spec_reserved_prefix()[8] == '_');
        }
    }
    r
}

fn is_eligible_chars(v: &Vec<char>) -> (r: bool)
    ensures
        r == spec_is_eligible_id(v@),
{
    if v.len() == 0 {
        return false;
    }
    if has_reserved_prefix(v) {
        return false;
    }
    let mut i: usize = 0;
    while i < v.len()
        invariant
            i <= v.len(),
            forall|j: int| 0 <= j < i ==> spec_is_eligible_char(#[trigger] v@[j]),
        decreases v.len() - i,
    {
        let c = v[i];
        let ok = ('A' <= c && c <= 'Z') || ('a' <= c && c <= 'z') || ('0' <= c && c <= '9') || c
            == '_' || c == '/' || c == '-';
        if !ok {
            return false;
        }
        i = i + 1;
    }
    true
}

/// Whether a string may serve as an identifier: only letters, digits, `_`,
/// `/` and `-`, non-empty, and not starting with the reserved prefix.
pub fn is_eligible_id(id: &str) -> (r: bool)
    ensures
        r == spec_is_eligible_id(id@),
{
    let v = str_to_chars(id);
    is_eligible_chars(&v)
}

proof fn lemma_trim_front_skip(s: Seq<char>, k: int)
    requires
        0 <= k <= s.len(),
        forall|i: int| 0 <= i < k ==> spec_is_space(#[trigger] s[i]),
        k < s.len() ==> !spec_is_space(s[k]),
    ensures
        spec_trim_front(s) =~= s.skip(k),
    decreases k,
{
    if k == 0 {
        assert(s.skip(0) =~= s);
    } else {
        assert(spec_is_space(s[0]));
        lemma_trim_front_skip(s.skip(1), k - 1);
        assert(s.skip(1).skip(k - 1) =~= s.skip(k));
    }
}

proof fn lemma_trim_back_take(s: Seq<char>, k: int)
    requires
        0 <= k <= s.len(),
        forall|i: int| k <= i < s.len() ==> spec_is_space(#[trigger] s[i]),
        k > 0 ==> !spec_is_space(s[k - 1]),
    ensures
        spec_trim_back(s) =~= s.take(k),
    decreases s.len() - k,
{
    if k == s.len() {
        if s.len() == 0 {
            assert(s.take(0) =~= s);
        } else {
            assert(!spec_is_space(s.last()));
            assert(s.take(k) =~= s);
        }
    } else {
        assert(spec_is_space(s.last()));
        lemma_trim_back_take(s.drop_last(), k);
        assert(s.drop_last().take(k) =~= s.take(k));
    }
}

/// Trim whitespace from both ends and lower-case ASCII letters; the
/// sanitization every identifier goes through before validation.
pub fn sanitize_id(raw: &str) -> (r: String)
    ensures
        r@ == spec_sanitize(raw@),
{
    let v = trim_chars(raw);
    let mut out: Vec<char> = Vec::new();
    let mut i: usize = 0;
    while i < v.len()
        invariant
            i <= v.len(),
            out@ == v@.take(i as int).map_values(|c: char| spec_lower_char(c)),
        decreases v.len() - i,
    {
        out.push(lower_char(v[i]));
        proof {
            assert(v@.take(i + 1).drop_last() =~= v@.take(i as int));
            assert(v@.take(i + 1).map_values(|c: char| spec_lower_char(c)).drop_last() =~= v@.take(
                i as int,
            ).map_values(|c: char| spec_lower_char(c)));
            assert(out@ =~= v@.take(i + 1).map_values(|c: char| spec_lower_char(c)));
        }
        i = i + 1;
    }
    proof {
        assert(v@.take(v@.len() as int) =~= v@);
    }
    chars_to_string(&out)
}

/// Trim whitespace from both ends, keeping case; the sanitization titles go
/// through.
pub fn trim_str(raw: &str) -> (r: String)
    ensures
        r@ == spec_trim(raw@),
{
    let v = trim_chars(raw);
    chars_to_string(&v)
}

fn trim_chars(raw: &str) -> (r: Vec<char>)
    ensures
        r@ == spec_trim(raw@),
{
    let v = str_to_chars(raw);
    let mut start: usize = 0;
    while start < v.len() && is_space(v[start])
        invariant
            start <= v.len(),
            forall|i: int| 0 <= i < start ==> spec_is_space(#[trigger] v@[i]),
        decreases v.len() - start,
    {
        start = start + 1;
    }
    proof {
        lemma_trim_front_skip(v@, start as int);
    }
    let ghost fronted = v@.skip(start as int);
    let mut end: usize = v.len();
    while end > start && is_space(v[end - 1])
        invariant
            start <= end <= v.len(),
            fronted == v@.skip(start as int),
            forall|i: int| end <= i < v.len() ==> spec_is_space(#[trigger] v@[i]),
        decreases end,
    {
        end = end - 1;
    }
    proof {
        assert forall|i: int| end - start <= i < fronted.len() implies spec_is_space(
            #[trigger] fronted[i],
        ) by {
            assert(fronted[i] == v@[i + start]);
        }
        if end > start {
            assert(fronted[end - start - 1] == v@[end - 1]);
        }
        lemma_trim_back_take(fronted, end - start);
    }
    let mut out: Vec<char> = Vec::new();
    let mut i: usize = start;
    while i < end
        invariant
            start <= i <= end <= v.len(),
            fronted == v@.skip(start as int),
            out@ == fronted.take(i - start),
        decreases end - i,
    {
        out.push(v[i]);
        proof {
            assert(fronted.take(i - start).push(fronted[i - start]) =~= fronted.take(
                i + 1 - start,
            ));
            assert(fronted[i - start] == v@[i as int]);
        }
        i = i + 1;
    }
    proof {
        assert(out@ =~= spec_trim(raw@));
    }
    out
}

/// Validate an already sanitized identifier, saying exactly why it fails.
fn check_id(sanitized: &String) -> (r: Result<(), IdentifierError>)
    ensures
        r is Ok <==> spec_valid_id(sanitized@),
        r == Result::<(), IdentifierError>::Err(IdentifierError::Empty) <==> sanitized@.len() == 0,
        r == Result::<(), IdentifierError>::Err(IdentifierError::TooLong) <==> sanitized@.len()
            > MAX_ID_LEN,
        r == Result::<(), IdentifierError>::Err(IdentifierError::NotEligible) <==> (1
            <= sanitized@.len() <= MAX_ID_LEN && !spec_is_eligible_id(sanitized@)),
{
    let v = str_to_chars(sanitized.as_str());
    if v.len() == 0 {
        Err(IdentifierError::Empty)
    } else if v.len() > MAX_ID_LEN {
        Err(IdentifierError::TooLong)
    } else if !is_eligible_chars(&v) {
        Err(IdentifierError::NotEligible)
    } else {
        Ok(())
    }
}

/// A validated document type identifier.
#[derive(Debug)]
pub struct DocumentTypeId {
    value: String,
}

impl View for DocumentTypeId {
    type V = Seq<char>;

    closed spec fn view(&self) -> Seq<char> {
        self.value@
    }
}

impl Clone for DocumentTypeId {
    fn clone(&self) -> (r: Self)
        ensures
            r@ == self@,
    {
        DocumentTypeId { value: self.value.clone() }
    }
}

impl PartialEq for DocumentTypeId {
    fn eq(&self, other: &Self) -> (r: bool) {
        self.value.eq(&other.value)
    }
}

impl vstd::std_specs::cmp::PartialEqSpecImpl for DocumentTypeId {
    open spec fn obeys_eq_spec() -> bool {
        true
    }

    open spec fn eq_spec(&self, other: &Self) -> bool {
        self@ == other@
    }
}

impl Eq for DocumentTypeId {

}

impl DocumentTypeId {
    /// Construction fails immediately on violation; there is no repair path.
    pub fn try_new(raw: &str) -> (r: Result<DocumentTypeId, IdentifierError>)
        ensures
            r is Ok <==> spec_valid_id(spec_sanitize(raw@)),
            r matches Ok(id) ==> id@ == spec_sanitize(raw@),
    {
        let value = sanitize_id(raw);
        match check_id(&value) {
            Ok(()) => Ok(DocumentTypeId { value }),
            Err(e) => Err(e),
        }
    }

    /// Every constructed identifier is valid.
    pub open spec fn wf(&self) -> bool {
        spec_valid_id(self@)
    }

    /// The identifier as entered (sanitized), the external form.
    pub fn as_str(&self) -> (r: &str)
        ensures
            r@ == self@,
    {
        self.value.as_str()
    }

    /// The SQL identifier: `-` replaced by `_`.
    pub fn normalized(&self) -> (r: String)
        ensures
            r@ == spec_normalized(self@),
    {
        normalize_str(&self.value)
    }
}

/// A validated attribute identifier; same rules as a document type id.
#[derive(Debug)]
pub struct AttributeId {
    value: String,
}

impl View for AttributeId {
    type V = Seq<char>;

    closed spec fn view(&self) -> Seq<char> {
        self.value@
    }
}

impl Clone for AttributeId {
    fn clone(&self) -> (r: Self)
        ensures
            r@ == self@,
    {
        AttributeId { value: self.value.clone() }
    }
}

impl PartialEq for AttributeId {
    fn eq(&self, other: &Self) -> (r: bool) {
        self.value.eq(&other.value)
    }
}

impl vstd::std_specs::cmp::PartialEqSpecImpl for AttributeId {
    open spec fn obeys_eq_spec() -> bool {
        true
    }

    open spec fn eq_spec(&self, other: &Self) -> bool {
        self@ == other@
    }
}

impl Eq for AttributeId {

}

impl AttributeId {
    pub fn try_new(raw: &str) -> (r: Result<AttributeId, IdentifierError>)
        ensures
            r is Ok <==> spec_valid_id(spec_sanitize(raw@)),
            r matches Ok(id) ==> id@ == spec_sanitize(raw@),
    {
        let value = sanitize_id(raw);
        match check_id(&value) {
            Ok(()) => Ok(AttributeId { value }),
            Err(e) => Err(e),
        }
    }

    pub open spec fn wf(&self) -> bool {
        spec_valid_id(self@)
    }

    pub fn as_str(&self) -> (r: &str)
        ensures
            r@ == self@,
    {
        self.value.as_str()
    }

    /// The SQL identifier: `-` replaced by `_`.
    pub fn normalized(&self) -> (r: String)
        ensures
            r@ == spec_normalized(self@),
    {
        normalize_str(&self.value)
    }
}

/// Replace `-` by `_` in a string.
pub fn normalize_str(s: &String) -> (r: String)
    ensures
        r@ == spec_normalized(s@),
{
    let v = str_to_chars(s.as_str());
    let mut out: Vec<char> = Vec::new();
    let mut i: usize = 0;
    while i < v.len()
        invariant
            i <= v.len(),
            out@ == v@.take(i as int).map_values(|c: char| if c == '-' { '_' } else { c }),
        decreases v.len() - i,
    {
        let c = v[i];
        out.push(if c == '-' { '_' } else { c });
        proof {
            assert(v@.take(i + 1).drop_last() =~= v@.take(i as int));
            assert(out@ =~= v@.take(i + 1).map_values(|c: char| if c == '-' { '_' } else { c }));
        }
        i = i + 1;
    }
    proof {
        assert(v@.take(v@.len() as int) =~= v@);
    }
    chars_to_string(&out)
}

/// Normalization is idempotent: applied to an already normalized identifier
/// it changes nothing. It also never changes the length, and touches no
/// character but `-`, which it maps to `_`.
pub proof fn lemma_normalized_idempotent(s: Seq<char>)
    ensures
        spec_normalized(spec_normalized(s)) == spec_normalized(s),
        spec_normalized(s).len() == s.len(),
        forall|i: int| 0 <= i < s.len() ==> #[trigger] spec_normalized(s)[i] == (if s[i] == '-' {
            '_'
        } else {
            s[i]
        }),
{
    assert(spec_normalized(spec_normalized(s)) =~= spec_normalized(s));
}


/// Sanitization only lower-cases the trimmed string, so the two have equal
/// length.
pub proof fn lemma_sanitize_len(s: Seq<char>)
    ensures
        spec_sanitize(s).len() == spec_trim(s).len(),
{
}

/// A validated locale identifier: exactly two characters, one of the
/// supported locales.
#[derive(Debug)]
pub struct LocalizationId {
    value: String,
}

/// The supported locales.
pub open spec fn spec_valid_locale(s: Seq<char>) -> bool {
    s == seq!['r', 'u'] || s == seq!['r', 'o'] || s == seq!['e', 'n']
}

/// Why a locale identifier was rejected.
#[derive(Clone, Copy, Debug, PartialEq, Eq, Structural)]
pub enum LocalizationIdError {
    NotSupported,
}

impl View for LocalizationId {
    type V = Seq<char>;

    closed spec fn view(&self) -> Seq<char> {
        self.value@
    }
}

impl Clone for LocalizationId {
    fn clone(&self) -> (r: Self)
        ensures
            r@ == self@,
    {
        LocalizationId { value: self.value.clone() }
    }
}

impl LocalizationId {
    pub fn try_new(raw: &str) -> (r: Result<LocalizationId, LocalizationIdError>)
        ensures
            r is Ok <==> spec_valid_locale(spec_sanitize(raw@)),
            r matches Ok(l) ==> l@ == spec_sanitize(raw@),
    {
        let value = sanitize_id(raw);
        let v = str_to_chars(value.as_str());
        let ok = v.len() == 2 && ((v[0] == 'r' && v[1] == 'u') || (v[0] == 'r' && v[1] == 'o') || (
        v[0] == 'e' && v[1] == 'n'));
        proof {
            if ok {
                if v@[0] == 'r' && v@[1] == 'u' {
                    assert(v@ =~= seq!['r', 'u']);
                } else if v@[0] == 'r' && v@[1] == 'o' {
                    assert(v@ =~= seq!['r', 'o']);
                } else {
                    assert(v@ =~= seq!['e', 'n']);
                }
            } else {
                assert(v@ != seq!['r', 'u'] && v@ != seq!['r', 'o'] && v@ != seq!['e', 'n']) by {
                    if v@.len() == 2 {
                        assert(seq!['r', 'u'][0] == 'r' && seq!['r', 'u'][1] == 'u');
                        assert(seq!['r', 'o'][0] == 'r' && seq!['r', 'o'][1] == 'o');
                        assert(seq!['e', 'n'][0] == 'e' && seq!['e', 'n'][1] == 'n');
                    }
                }
            }
        }
        if ok {
            Ok(LocalizationId { value })
        } else {
            Err(LocalizationIdError::NotSupported)
        }
    }

    pub open spec fn wf(&self) -> bool {
        spec_valid_locale(self@)
    }

    pub fn as_str(&self) -> (r: &str)
        ensures
            r@ == self@,
    {
        self.value.as_str()
    }
}

/// A document title: any non-empty string once trimmed.
#[derive(Debug)]
pub struct DocumentTitle {
    value: String,
}

/// Why a title was rejected.
#[derive(Clone, Copy, Debug, PartialEq, Eq, Structural)]
pub enum DocumentTitleError {
    Empty,
}

impl View for DocumentTitle {
    type V = Seq<char>;

    closed spec fn view(&self) -> Seq<char> {
        self.value@
    }
}

impl Clone for DocumentTitle {
    fn clone(&self) -> (r: Self)
        ensures
            r@ == self@,
    {
        DocumentTitle { value: self.value.clone() }
    }
}

impl DocumentTitle {
    pub fn try_new(raw: &str) -> (r: Result<DocumentTitle, DocumentTitleError>)
        ensures
            r is Ok <==> spec_trim(raw@).len() > 0,
            r matches Ok(t) ==> t@ == spec_trim(raw@),
    {
        let value = trim_str(raw);
        if value.as_str().unicode_len() == 0 {
            Err(DocumentTitleError::Empty)
        } else {
            Ok(DocumentTitle { value })
        }
    }

    pub open spec fn wf(&self) -> bool {
        self@.len() > 0
    }

    pub fn as_str(&self) -> (r: &str)
        ensures
            r@ == self@,
    {
        self.value.as_str()
    }
}

} // verus!
