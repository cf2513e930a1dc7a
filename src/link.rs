use vstd::prelude::*;

verus! {

pub uninterp spec fn link_target_of(header: Seq<char>, rel: Seq<char>) -> Result<Option<Seq<char>>, Seq<char>>;

/// Relies on `parse_link_header::parse` and on `url::Url`'s text form: the
/// target of the entry whose `rel` parameter is `rel`, nothing where no entry
/// has that relation, or the parser's message where the header is malformed.
/// The outcome depends on the two texts alone.
#[verifier::external_body]
fn link_target(header: &str, rel: &str) -> (r: Result<Option<String>, String>)
    ensures
        r matches Ok(Some(u)) ==> (link_target_of(header@, rel@) matches Ok(found) && found == Some(u@)),
        r matches Ok(None) ==> (link_target_of(header@, rel@) matches Ok(found) && found is None),
        r matches Err(e) ==> (link_target_of(header@, rel@) matches Err(found) && found == e@),
{
    match parse_link_header::parse(header) {
        Ok(map) => Ok(map.get(&Some(rel.to_owned())).map(|link| link.uri.to_string())),
        Err(e) => Err(e.to_string()),
    }
}

/// The next page's URL that a `link` header names, if any.
pub open spec fn next_link_of(header: Seq<char>) -> Result<Option<Seq<char>>, Seq<char>> {
    link_target_of(header, "next"@)
}

/// The target of the `next` relation of a `link` header: nothing where the
/// header names no next page, and the parser's message where it is malformed.
pub fn next_link(header: &str) -> (r: Result<Option<String>, String>)
    ensures
        r matches Ok(Some(u)) ==> (next_link_of(header@) matches Ok(found) && found == Some(u@)),
        r matches Ok(None) ==> (next_link_of(header@) matches Ok(found) && found is None),
        r matches Err(e) ==> (next_link_of(header@) matches Err(found) && found == e@),
{
    link_target(header, "next")
}

} // verus!
