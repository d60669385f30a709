use vstd::prelude::*;

verus! {

/// Text of the served HTML page before the body content.
pub const PAGE_HEAD: &'static str = "\n<!DOCTYPE html>\n<html>\n    <head>\n        <meta charset=\"utf-8\">\n        <title>esp-rs web server</title>\n    </head>\n    <body>\n        ";

/// Text of the served HTML page after the body content.
pub const PAGE_TAIL: &'static str = "\n    </body>\n</html>\n";

/// Body content of the index page.
pub const INDEX_MESSAGE: &'static str = "Please post sensor value to /sensor";

/// The HTML page whose body holds `content`.
pub fn templated(content: &str) -> (r: String)
    ensures
        r@ == PAGE_HEAD@ + content@ + PAGE_TAIL@,
{
    let mut r = String::from_str(PAGE_HEAD);
    r.append(content);
    r.append(PAGE_TAIL);
    r
}

/// The page served at `/`: it tells where to post sensor values.
pub fn index_html() -> (r: String)
    ensures
        r@ == PAGE_HEAD@ + INDEX_MESSAGE@ + PAGE_TAIL@,
{
    templated(INDEX_MESSAGE)
}

} // verus!
