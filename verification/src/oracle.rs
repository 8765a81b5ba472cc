//! The divergence oracle: decides whether two invocation results are the
//! same, and if not, names the first place where they part.
//!
//! Both kinds of result, a buffer sorted in place and the fields of a parsed
//! value, are compared as sequences, position by position. Two sequences
//! differ at a position where one holds a value and the other holds another
//! value or none at all; so a difference in length is a difference at the
//! first position that only the longer one has.

use vstd::prelude::*;

verus! {

/// What a sequence holds at a position: its element there, or nothing beyond
/// its end.
pub open spec fn observed<T>(s: Seq<T>, i: int) -> Option<T> {
    if 0 <= i < s.len() {
        Some(s[i])
    } else {
        None
    }
}

/// `i` is the first position at which `reference` and `translated` differ.
pub open spec fn first_difference<T>(reference: Seq<T>, translated: Seq<T>, i: int) -> bool {
    &&& 0 <= i
    &&& observed(reference, i) != observed(translated, i)
    &&& forall|k: int| 0 <= k < i ==> observed(reference, k) == observed(translated, k)
}

/// Two sequences are equal exactly when they differ at no position.
pub proof fn lemma_equal_iff_no_difference<T>(reference: Seq<T>, translated: Seq<T>)
    ensures
        reference == translated <==> forall|i: int|
            0 <= i ==> observed(reference, i) == observed(translated, i),
{
    if forall|i: int| 0 <= i ==> observed(reference, i) == observed(translated, i) {
        let n = reference.len() as int;
        let m = translated.len() as int;
        if n < m {
            assert(observed(reference, n) == observed(translated, n));
        }
        if m < n {
            assert(observed(reference, m) == observed(translated, m));
        }
        assert forall|i: int| 0 <= i < n implies reference[i] == translated[i] by {
            assert(observed(reference, i) == observed(translated, i));
        }
        assert(reference =~= translated);
    }
}

/// There is at most one first difference.
pub proof fn lemma_first_difference_unique<T>(
    reference: Seq<T>,
    translated: Seq<T>,
    i: int,
    j: int,
)
    requires
        first_difference(reference, translated, i),
        first_difference(reference, translated, j),
    ensures
        i == j,
{
}

/// The record of a divergence between two buffers: the first position at
/// which they differ and what each side holds there, nothing where that
/// side's buffer has ended.
#[derive(Clone, Debug, PartialEq, Eq)]
pub struct WordDivergence {
    pub position: usize,
    pub reference: Option<i32>,
    pub translated: Option<i32>,
}

/// `record` is what comparing the two buffers yields: nothing for equal
/// buffers, otherwise the first difference with both observed values.
pub open spec fn judges_words(
    reference: Seq<i32>,
    translated: Seq<i32>,
    record: Option<WordDivergence>,
) -> bool {
    match record {
        None => reference == translated,
        Some(d) => {
            &&& first_difference(reference, translated, d.position as int)
            &&& d.reference == observed(reference, d.position as int)
            &&& d.translated == observed(translated, d.position as int)
        },
    }
}

/// Compares the buffers that the two implementations left behind, element by
/// element, and stops at the first difference.
pub fn compare_words(reference: &[i32], translated: &[i32]) -> (record: Option<WordDivergence>)
    ensures
        judges_words(reference@, translated@, record),
        record is None <==> reference@ == translated@,
{
    let mut i: usize = 0;
    while i < reference.len() && i < translated.len()
        invariant
            i <= reference.len(),
            i <= translated.len(),
            forall|k: int| 0 <= k < i ==> reference@[k] == translated@[k],
        decreases reference.len() - i,
    {
        if reference[i] != translated[i] {
            return Some(
                WordDivergence {
                    position: i,
                    reference: Some(reference[i]),
                    translated: Some(translated[i]),
                },
            );
        }
        i += 1;
    }
    if i < reference.len() {
        Some(WordDivergence { position: i, reference: Some(reference[i]), translated: None })
    } else if i < translated.len() {
        Some(WordDivergence { position: i, reference: None, translated: Some(translated[i]) })
    } else {
        assert(reference@ =~= translated@);
        None
    }
}

/// The named fields of a parsed value, in the order in which they are
/// compared.
#[derive(Clone, Copy, Debug, PartialEq, Eq, Structural)]
pub enum Accessor {
    Protocol,
    Host,
    Hostname,
    Path,
    Query,
    Fragment,
    Port,
    Authority,
    PathOnly,
    SearchOnly,
}

/// The number of accessors.
pub const ACCESSORS: usize = 10;

impl Accessor {
    /// The accessor's place in the order of comparison.
    pub open spec fn position(self) -> int {
        match self {
            Accessor::Protocol => 0,
            Accessor::Host => 1,
            Accessor::Hostname => 2,
            Accessor::Path => 3,
            Accessor::Query => 4,
            Accessor::Fragment => 5,
            Accessor::Port => 6,
            Accessor::Authority => 7,
            Accessor::PathOnly => 8,
            Accessor::SearchOnly => 9,
        }
    }

    /// The accessor's name, as it appears in a divergence report.
    pub open spec fn spec_name(self) -> Seq<char> {
        match self {
            Accessor::Protocol => "protocol"@,
            Accessor::Host => "host"@,
            Accessor::Hostname => "hostname"@,
            Accessor::Path => "path"@,
            Accessor::Query => "query"@,
            Accessor::Fragment => "fragment"@,
            Accessor::Port => "port"@,
            Accessor::Authority => "authority"@,
            Accessor::PathOnly => "path-only"@,
            Accessor::SearchOnly => "search-only"@,
        }
    }

    /// The accessor's name, as it appears in a divergence report.
    pub fn name(self) -> (name: &'static str)
        ensures
            name@ == self.spec_name(),
    {
        match self {
            Accessor::Protocol => "protocol",
            Accessor::Host => "host",
            Accessor::Hostname => "hostname",
            Accessor::Path => "path",
            Accessor::Query => "query",
            Accessor::Fragment => "fragment",
            Accessor::Port => "port",
            Accessor::Authority => "authority",
            Accessor::PathOnly => "path-only",
            Accessor::SearchOnly => "search-only",
        }
    }

    /// The accessor that is compared at `position`, if there is one.
    pub fn at(position: usize) -> (accessor: Option<Accessor>)
        ensures
            accessor is None <==> position >= ACCESSORS,
            accessor matches Some(a) ==> a.position() == position,
    {
        match position {
            0 => Some(Accessor::Protocol),
            1 => Some(Accessor::Host),
            2 => Some(Accessor::Hostname),
            3 => Some(Accessor::Path),
            4 => Some(Accessor::Query),
            5 => Some(Accessor::Fragment),
            6 => Some(Accessor::Port),
            7 => Some(Accessor::Authority),
            8 => Some(Accessor::PathOnly),
            9 => Some(Accessor::SearchOnly),
            _ => None,
        }
    }
}

/// What a text value stands for: its bytes, or nothing where the accessor
/// returned no string.
pub open spec fn text(value: Option<Vec<u8>>) -> Option<Seq<u8>> {
    match value {
        None => None,
        Some(bytes) => Some(bytes@),
    }
}

/// What one implementation reported of a parsed value: for each accessor the
/// bytes of the string it returned, or nothing where it returned none.
#[derive(Clone, Debug, PartialEq, Eq)]
pub struct UrlReport {
    pub protocol: Option<Vec<u8>>,
    pub host: Option<Vec<u8>>,
    pub hostname: Option<Vec<u8>>,
    pub path: Option<Vec<u8>>,
    pub query: Option<Vec<u8>>,
    pub fragment: Option<Vec<u8>>,
    pub port: Option<Vec<u8>>,
    pub authority: Option<Vec<u8>>,
    pub path_only: Option<Vec<u8>>,
    pub search_only: Option<Vec<u8>>,
}

impl View for UrlReport {
    type V = Seq<Option<Seq<u8>>>;

    /// The reported values in the order of comparison.
    open spec fn view(&self) -> Seq<Option<Seq<u8>>> {
        seq![
            text(self.protocol),
            text(self.host),
            text(self.hostname),
            text(self.path),
            text(self.query),
            text(self.fragment),
            text(self.port),
            text(self.authority),
            text(self.path_only),
            text(self.search_only),
        ]
    }
}

impl UrlReport {
    /// The value reported for `accessor`.
    pub fn get(&self, accessor: Accessor) -> (value: &Option<Vec<u8>>)
        ensures
            text(*value) == self@[accessor.position()],
    {
        match accessor {
            Accessor::Protocol => &self.protocol,
            Accessor::Host => &self.host,
            Accessor::Hostname => &self.hostname,
            Accessor::Path => &self.path,
            Accessor::Query => &self.query,
            Accessor::Fragment => &self.fragment,
            Accessor::Port => &self.port,
            Accessor::Authority => &self.authority,
            Accessor::PathOnly => &self.path_only,
            Accessor::SearchOnly => &self.search_only,
        }
    }
}

/// Byte-exact equality of two strings.
pub fn same_bytes(reference: &[u8], translated: &[u8]) -> (same: bool)
    ensures
        same == (reference@ == translated@),
{
    if reference.len() != translated.len() {
        return false;
    }
    let mut i: usize = 0;
    while i < reference.len()
        invariant
            i <= reference.len(),
            reference.len() == translated.len(),
            forall|k: int| 0 <= k < i ==> reference@[k] == translated@[k],
        decreases reference.len() - i,
    {
        if reference[i] != translated[i] {
            return false;
        }
        i += 1;
    }
    assert(reference@ =~= translated@);
    true
}

/// Equality of two text values: both absent, or both present with the same
/// bytes. One absent and one present are different.
pub fn same_text(reference: &Option<Vec<u8>>, translated: &Option<Vec<u8>>) -> (same: bool)
    ensures
        same == (text(*reference) == text(*translated)),
{
    match (reference, translated) {
        (None, None) => true,
        (Some(r), Some(t)) => same_bytes(r.as_slice(), t.as_slice()),
        _ => false,
    }
}

/// A copy of a text value.
fn copy_text(value: &Option<Vec<u8>>) -> (copy: Option<Vec<u8>>)
    ensures
        text(copy) == text(*value),
{
    match value {
        None => None,
        Some(bytes) => {
            let mut copy: Vec<u8> = Vec::new();
            copy.extend_from_slice(bytes.as_slice());
            assert(copy@ =~= bytes@);
            Some(copy)
        },
    }
}

/// The record of a divergence between two reports: the first accessor, in
/// the order of comparison, whose values differ, and both values.
#[derive(Clone, Debug, PartialEq, Eq)]
pub struct FieldDivergence {
    pub accessor: Accessor,
    pub reference: Option<Vec<u8>>,
    pub translated: Option<Vec<u8>>,
}

/// `record` is what comparing the two reports yields: nothing for equal
/// reports, otherwise the first differing accessor with both values.
pub open spec fn judges_reports(
    reference: Seq<Option<Seq<u8>>>,
    translated: Seq<Option<Seq<u8>>>,
    record: Option<FieldDivergence>,
) -> bool {
    match record {
        None => reference == translated,
        Some(d) => {
            &&& first_difference(reference, translated, d.accessor.position())
            &&& Some(text(d.reference)) == observed(reference, d.accessor.position())
            &&& Some(text(d.translated)) == observed(translated, d.accessor.position())
        },
    }
}

/// Compares what the two implementations reported, accessor by accessor in
/// the order of comparison, and stops at the first difference.
pub fn compare_reports(reference: &UrlReport, translated: &UrlReport) -> (record: Option<
    FieldDivergence,
>)
    ensures
        judges_reports(reference@, translated@, record),
        record is None <==> reference@ == translated@,
{
    let mut i: usize = 0;
    while i < ACCESSORS
        invariant
            i <= ACCESSORS,
            forall|k: int| 0 <= k < i ==> reference@[k] == translated@[k],
        decreases ACCESSORS - i,
    {
        match Accessor::at(i) {
            Some(accessor) => {
                let r = reference.get(accessor);
                let t = translated.get(accessor);
                if !same_text(r, t) {
                    return Some(
                        FieldDivergence {
                            accessor,
                            reference: copy_text(r),
                            translated: copy_text(t),
                        },
                    );
                }
            },
            None => {},
        }
        i += 1;
    }
    assert(reference@ =~= translated@);
    None
}

} // verus!
