//! The static assets of the error pages: the page template and its
//! stylesheet, built into the library and looked up by name.

use crate::template::{
    lemma_text_token, lemma_tokens_from_holds, lemma_var_token, placeholder, tokens, Token,
};
use crate::text::str_eq;
use vstd::prelude::*;
use vstd::string::*;

verus! {

/// The name of the stylesheet asset.
pub const STYLESHEET_NAME: &'static str = "stylesheet.css";

/// The name of the page template asset.
pub const TEMPLATE_NAME: &'static str = "template.html.tpl";

/// The stylesheet that the page template inlines.
pub const STYLESHEET: &'static str =
    "*{box-sizing:border-box}\n\
    html,body{height:100%;margin:0}\n\
    body{display:flex;align-items:center;justify-content:center}\n\
    body{background:#f5f6f8;color:#1f2430;font-family:system-ui,sans-serif}\n\
    main{max-width:36rem;padding:2rem;text-align:center}\n\
    h1{margin:0;font-size:6rem;line-height:1;color:#c0392b}\n\
    h2{margin:.5rem 0 1rem;font-size:1.5rem;font-weight:600}\n\
    p{margin:0;line-height:1.5;color:#4a5060}\n";

/// The page template, with one placeholder for each variable of a page.
pub const TEMPLATE: &'static str =
    "<!DOCTYPE html>\n\
    <html lang=\"en\">\n\
    <head>\n\
    <meta charset=\"utf-8\">\n\
    <meta name=\"viewport\" content=\"width=device-width, initial-scale=1\">\n\
    <title>{{code}} {{title}}</title>\n\
    <style>\n\
    {{stylesheet}}</style>\n\
    </head>\n\
    <body>\n\
    <main>\n\
    <h1>{{code}}</h1>\n\
    <h2>{{title}}</h2>\n\
    <p>{{message}}</p>\n\
    </main>\n\
    </body>\n\
    </html>\n";

/// The text of the asset `name`, where there is one.
pub open spec fn asset(name: Seq<char>) -> Option<Seq<char>> {
    if name == STYLESHEET_NAME@ {
        Some(STYLESHEET@)
    } else if name == TEMPLATE_NAME@ {
        Some(TEMPLATE@)
    } else {
        None
    }
}

/// The page template names the title and the message of a page, each in a
/// placeholder.
pub proof fn lemma_template_names_entry()
    ensures
        tokens(TEMPLATE@).contains(Token::Var("title"@)),
        tokens(TEMPLATE@).contains(Token::Var("message"@)),
{
    reveal_strlit(
        "<!DOCTYPE html>\n\
        <html lang=\"en\">\n\
        <head>\n\
        <meta charset=\"utf-8\">\n\
        <meta name=\"viewport\" content=\"width=device-width, initial-scale=1\">\n\
        <title>{{code}} {{title}}</title>\n\
        <style>\n\
        {{stylesheet}}</style>\n\
        </head>\n\
        <body>\n\
        <main>\n\
        <h1>{{code}}</h1>\n\
        <h2>{{title}}</h2>\n\
        <p>{{message}}</p>\n\
        </main>\n\
        </body>\n\
        </html>\n",
    );
    reveal_strlit("code");
    reveal_strlit("title");
    reveal_strlit("stylesheet");
    reveal_strlit("message");
    let t = TEMPLATE@;
    assert(t.subrange(259, 270) =~= placeholder("message"@));
    lemma_var_token(t, "message"@, 259);
    lemma_tokens_from_holds(t, 259);
    lemma_text_token(t, 250, 259);
    lemma_tokens_from_holds(t, 250);
    assert(t.subrange(241, 250) =~= placeholder("title"@));
    lemma_var_token(t, "title"@, 241);
    lemma_tokens_from_holds(t, 241);
    lemma_text_token(t, 231, 241);
    lemma_tokens_from_holds(t, 231);
    assert(t.subrange(223, 231) =~= placeholder("code"@));
    lemma_var_token(t, "code"@, 223);
    lemma_tokens_from_holds(t, 223);
    lemma_text_token(t, 188, 223);
    lemma_tokens_from_holds(t, 188);
    assert(t.subrange(174, 188) =~= placeholder("stylesheet"@));
    lemma_var_token(t, "stylesheet"@, 174);
    lemma_tokens_from_holds(t, 174);
    lemma_text_token(t, 157, 174);
    lemma_tokens_from_holds(t, 157);
    assert(t.subrange(148, 157) =~= placeholder("title"@));
    lemma_var_token(t, "title"@, 148);
    lemma_tokens_from_holds(t, 148);
    lemma_text_token(t, 147, 148);
    lemma_tokens_from_holds(t, 147);
    assert(t.subrange(139, 147) =~= placeholder("code"@));
    lemma_var_token(t, "code"@, 139);
    lemma_tokens_from_holds(t, 139);
    lemma_text_token(t, 0, 139);
    lemma_tokens_from_holds(t, 0);
}

/// The two assets are found under their names.
pub proof fn lemma_assets()
    ensures
        asset(STYLESHEET_NAME@) == Some(STYLESHEET@),
        asset(TEMPLATE_NAME@) == Some(TEMPLATE@),
{
    reveal_strlit("stylesheet.css");
    reveal_strlit("template.html.tpl");
    assert(STYLESHEET_NAME@.len() != TEMPLATE_NAME@.len());
}

/// Looks up a static asset by name.
pub fn get_static(name: &str) -> (text: Option<String>)
    ensures
        match text {
            Some(t) => asset(name@) == Some(t@),
            None => asset(name@) is None,
        },
{
    if str_eq(name, STYLESHEET_NAME) {
        Some(String::from_str(STYLESHEET))
    } else if str_eq(name, TEMPLATE_NAME) {
        Some(String::from_str(TEMPLATE))
    } else {
        None
    }
}

} // verus!
