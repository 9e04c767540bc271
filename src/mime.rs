use vstd::prelude::*;

verus! {

/// The MIME type that content sniffing finds in `bytes`, if any signature
/// matches.
pub uninterp spec fn inferred_mime(bytes: Seq<u8>) -> Option<Seq<char>>;

/// Whether content sniffing knows the MIME type `mime`.
pub uninterp spec fn mime_supported(mime: Seq<char>) -> bool;

/// The type given to content that no signature matches.
pub open spec fn octet_stream() -> Seq<char> {
    "application/octet-stream"@
}

/// The MIME type recorded for content whose sniffed type is `inferred`.
pub open spec fn mime_or_default(inferred: Option<Seq<char>>) -> Seq<char> {
    match inferred {
        Some(m) => m,
        None => octet_stream(),
    }
}

/// The MIME type recorded for `bytes`.
pub open spec fn classify_spec(bytes: Seq<u8>) -> Seq<char> {
    mime_or_default(inferred_mime(bytes))
}

/// An allow-list admits `item`: an empty list admits everything, else `item`
/// must be one of its entries exactly.
pub open spec fn list_admits(list: Seq<Seq<char>>, item: Seq<char>) -> bool {
    list.len() == 0 || list.contains(item)
}

/// Relies on `infer::get`, whose outcome depends on the bytes alone, and on
/// the `Display` of `infer::Type`, which writes its MIME type.
#[verifier::external_body]
fn sniff(bytes: &[u8]) -> (r: Option<String>)
    ensures
        match r {
            Some(m) => inferred_mime(bytes@) == Some(m@),
            None => inferred_mime(bytes@) is None,
        },
{
    infer::get(bytes).map(|t| t.to_string())
}

/// Relies on `infer::is_mime_supported`: whether some matcher has this MIME type.
#[verifier::external_body]
fn supported(mime: &str) -> (r: bool)
    ensures
        r == mime_supported(mime@),
{
    infer::is_mime_supported(mime)
}

/// The MIME type to record, given what sniffing found.
pub fn mime_type_or_default(inferred: Option<String>) -> (r: String)
    ensures
        r@ == mime_or_default(
            match inferred {
                Some(m) => Some(m@),
                None => None,
            },
        ),
{
    match inferred {
        Some(m) => m,
        None => "application/octet-stream".to_owned(),
    }
}

/// Classifies content by its leading bytes, falling back to a generic binary
/// type when no signature matches.
pub fn classify(bytes: &[u8]) -> (r: String)
    ensures
        r@ == classify_spec(bytes@),
{
    mime_type_or_default(sniff(bytes))
}

/// Whether `list` admits `item`.
fn admits(list: &Vec<String>, item: &str) -> (r: bool)
    ensures
        r == list_admits(list.deep_view(), item@),
{
    if list.len() == 0 {
        return true;
    }
    let key = item.to_owned();
    let ghost view = list.deep_view();
    let mut i: usize = 0;
    while i < list.len()
        invariant
            i <= list.len(),
            view == list.deep_view(),
            key@ == item@,
            forall|j: int| 0 <= j < i ==> view[j] != item@,
        decreases list.len() - i,
    {
        if list[i] == key {
            assert(view[i as int] == item@);
            return true;
        }
        i = i + 1;
    }
    assert(!view.contains(item@));
    false
}

/// The MIME allow-list admits `mime_type`.
pub fn is_mime_type_allowed(allowed: &Vec<String>, mime_type: &str) -> (r: bool)
    ensures
        r == list_admits(allowed.deep_view(), mime_type@),
{
    admits(allowed, mime_type)
}

/// The public-key allow-list admits `pubkey`.
pub fn is_pubkey_allowed(allowed: &Vec<String>, pubkey: &str) -> (r: bool)
    ensures
        r == list_admits(allowed.deep_view(), pubkey@),
{
    admits(allowed, pubkey)
}

/// Every entry of `mime_types` is a type that content sniffing knows.
pub fn are_mime_types_supported(mime_types: &Vec<String>) -> (r: bool)
    ensures
        r == forall|i: int| 0 <= i < mime_types.len() ==> #[trigger] mime_supported(mime_types[i]@),
{
    let mut i: usize = 0;
    while i < mime_types.len()
        invariant
            i <= mime_types.len(),
            forall|j: int| 0 <= j < i ==> #[trigger] mime_supported(mime_types[j]@),
        decreases mime_types.len() - i,
    {
        if !supported(mime_types[i].as_str()) {
            return false;
        }
        i = i + 1;
    }
    true
}

/// An empty allow-list admits every item; a non-empty one admits exactly its
/// entries.
pub proof fn lemma_allow_list_empty_means_open(list: Seq<Seq<char>>, item: Seq<char>)
    ensures
        list.len() == 0 ==> list_admits(list, item),
        list.len() > 0 ==> (list_admits(list, item) <==> list.contains(item)),
{
}

} // verus!
