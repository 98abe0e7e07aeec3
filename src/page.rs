//! The single page that the device serves.
use vstd::prelude::*;

verus! {

/// Everything of the document before the body's content.
pub const PAGE_HEAD: &'static str = "
<!DOCTYPE html>
<html>
    <head>
        <meta charset=\"utf-8\">
        <title>esp-rs web server</title>
    </head>
    <body>
        ";

/// Everything of the document after the body's content.
pub const PAGE_TAIL: &'static str = "
    </body>
</html>
";

/// What the index page says.
pub const INDEX_CONTENT: &'static str = "\u{2728} Quint was here!";

/// The document whose body holds `content`.
pub open spec fn page_of(content: Seq<char>) -> Seq<char> {
    PAGE_HEAD@ + content + PAGE_TAIL@
}

/// Wraps `content` in a complete HTML document.
pub fn templated(content: &str) -> (r: String)
    ensures
        r@ == page_of(content@),
{
    let mut page = String::from_str(PAGE_HEAD);
    page.append(content);
    page.append(PAGE_TAIL);
    page
}

/// The document served at the root path.
pub fn index_html() -> (r: String)
    ensures
        r@ == page_of(INDEX_CONTENT@),
{
    templated(INDEX_CONTENT)
}

} // verus!
