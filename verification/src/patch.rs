//! The launcher files that this project manages itself, and the injection of
//! the controller-navigation script into the stock `index.html`.

use vstd::prelude::*;
use vstd::string::*;

use crate::text::{
    chars_of, contains_seq, is_last_match, lemma_last_match_exists, lemma_last_match_unique, matches_at,
    rfind,
};

verus! {

/// Install-relative path of the launcher page that receives the script tag.
pub const INDEX_HTML_PATH: &'static str = "launcher/assets/index.html";

/// Install-relative path of the controller-navigation script.
pub const CONTROLLER_NAV_PATH: &'static str = "launcher/assets/controller-nav.js";

/// The tag injected into the launcher page.
pub const SCRIPT_TAG: &'static str = "<script src=\"controller-nav.js\"></script>";

/// The closing tag before which the script tag goes.
pub const BODY_CLOSE: &'static str = "</body>";

/// The files that are written by this project and never downloaded from the CDN.
pub open spec fn is_patched_name(name: Seq<char>) -> bool {
    name == INDEX_HTML_PATH@ || name == CONTROLLER_NAV_PATH@
}

/// True if the file should NOT be downloaded from the CDN.
pub fn is_patched_file(name: &str) -> (res: bool)
    ensures
        res == is_patched_name(name@),
{
    let name = String::from_str(name);
    name == String::from_str(INDEX_HTML_PATH) || name == String::from_str(CONTROLLER_NAV_PATH)
}

/// The launcher page with the script tag injected: unchanged when the tag is
/// already present, otherwise the tag goes right before the last `</body>`,
/// or at the end when there is no `</body>`.
pub open spec fn injected(html: Seq<char>) -> Seq<char> {
    if contains_seq(html, SCRIPT_TAG@) {
        html
    } else if contains_seq(html, BODY_CLOSE@) {
        let p = choose|p: int| is_last_match(html, BODY_CLOSE@, p);
        html.take(p) + SCRIPT_TAG@ + html.skip(p)
    } else {
        html + SCRIPT_TAG@
    }
}

/// Insert the script tag immediately before the last `</body>`.
/// If the tag is already present, it is not doubled.
pub fn inject_script_tag(html: &str) -> (res: String)
    ensures
        res@ == injected(html@),
{
    let hay = chars_of(html);
    let tag = chars_of(SCRIPT_TAG);
    if rfind(&hay, &tag).is_some() {
        return String::from_str(html);
    }
    let body = chars_of(BODY_CLOSE);
    match rfind(&hay, &body) {
        Some(pos) => {
            proof {
                let p = choose|p: int| is_last_match(html@, BODY_CLOSE@, p);
                lemma_last_match_unique(html@, BODY_CLOSE@, p, pos as int);
            }
            let mut out = String::from_str(html.substring_char(0, pos));
            out.append(SCRIPT_TAG);
            out.append(html.substring_char(pos, hay.len()));
            out
        },
        None => {
            let mut out = String::from_str(html);
            out.append(SCRIPT_TAG);
            out
        },
    }
}

/// The patched page always holds the script tag.
pub proof fn lemma_injected_has_tag(html: Seq<char>)
    ensures
        contains_seq(injected(html), SCRIPT_TAG@),
{
    let tag = SCRIPT_TAG@;
    if contains_seq(html, tag) {
    } else if contains_seq(html, BODY_CLOSE@) {
        let i = choose|i: int| matches_at(html, BODY_CLOSE@, i);
        lemma_last_match_exists(html, BODY_CLOSE@, i);
        let p = choose|p: int| is_last_match(html, BODY_CLOSE@, p);
        let out = html.take(p) + tag + html.skip(p);
        assert(out.subrange(p, p + tag.len()) =~= tag);
        assert(matches_at(out, tag, p));
    } else {
        let out = html + tag;
        assert(out.subrange(html.len() as int, (html.len() + tag.len()) as int) =~= tag);
        assert(matches_at(out, tag, html.len() as int));
    }
}

/// Patching is idempotent: patching an already patched page changes nothing,
/// so re-running without a CDN update never doubles the tag.
pub proof fn lemma_inject_idempotent(html: Seq<char>)
    ensures
        injected(injected(html)) == injected(html),
{
    lemma_injected_has_tag(html);
}

/// The patched page is `html` with the tag inserted at position `p`, which is
/// directly before a `</body>` with no `</body>` after it in the page, or the
/// end of the page when it has no `</body>`.
pub open spec fn tag_inserted_at(html: Seq<char>, p: int) -> bool {
    &&& 0 <= p <= html.len()
    &&& injected(html) == html.take(p) + SCRIPT_TAG@ + html.skip(p)
    &&& injected(html).len() == html.len() + SCRIPT_TAG@.len()
    &&& if contains_seq(html, BODY_CLOSE@) {
        &&& matches_at(html, BODY_CLOSE@, p)
        &&& matches_at(injected(html), BODY_CLOSE@, p + SCRIPT_TAG@.len())
        &&& forall|j: int| p < j ==> !matches_at(html, BODY_CLOSE@, j)
    } else {
        p == html.len()
    }
}

/// What patching does: a page that already has the tag is kept as it is;
/// otherwise the page is kept whole and only the tag is inserted, directly
/// before the last `</body>`, or at the end when there is none.
pub proof fn lemma_injection_position(html: Seq<char>)
    ensures
        contains_seq(html, SCRIPT_TAG@) ==> injected(html) == html,
        !contains_seq(html, SCRIPT_TAG@) ==> exists|p: int| tag_inserted_at(html, p),
{
    if !contains_seq(html, SCRIPT_TAG@) {
        let tag = SCRIPT_TAG@;
        if contains_seq(html, BODY_CLOSE@) {
            let i = choose|i: int| matches_at(html, BODY_CLOSE@, i);
            lemma_last_match_exists(html, BODY_CLOSE@, i);
            let p = choose|p: int| is_last_match(html, BODY_CLOSE@, p);
            let out = html.take(p) + tag + html.skip(p);
            assert(out.subrange(p + tag.len(), p + tag.len() + BODY_CLOSE@.len()) =~= html.subrange(
                p,
                p + BODY_CLOSE@.len(),
            ));
            assert(matches_at(out, BODY_CLOSE@, p + tag.len()));
            assert(tag_inserted_at(html, p));
        } else {
            let p = html.len() as int;
            assert(html.take(p) =~= html);
            assert(html.skip(p) =~= Seq::<char>::empty());
            assert(html + tag =~= html.take(p) + tag + html.skip(p));
            assert(tag_inserted_at(html, p));
        }
    }
}

/// Exactly two files are written by this project and kept from the CDN sync:
/// the launcher page and the controller-navigation script.
pub proof fn lemma_patched_files_are_exactly_two(name: Seq<char>)
    ensures
        is_patched_name(name) <==> (name == "launcher/assets/index.html"@ || name
            == "launcher/assets/controller-nav.js"@),
{
}

} // verus!
