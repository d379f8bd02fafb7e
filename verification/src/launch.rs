//! What launching an application means: a web address opens in the browser
//! (with its parameters put into the address), anything else starts as a
//! program. The opening itself is done by the caller.

use vstd::prelude::*;
use crate::json::{JsonValue, member};
use crate::text::{
    has_placeholder, fill_placeholders, join_words, views_of, is_web_address,
    contains_placeholder, replace_placeholders, join_with_spaces, starts_with_http,
    lemma_fill_single_placeholder,
};

verus! {

/// The text that [`insert_into_template`] gives: every `{}` of the template
/// replaced by the input; without a `{}`, the input is appended.
pub open spec fn template_result(template: Seq<char>, input: Seq<char>) -> Seq<char> {
    if has_placeholder(template) {
        fill_placeholders(template, input)
    } else if input.len() == 0 {
        template
    } else {
        template + input
    }
}

/// Puts `input` into `template`: each `{}` in it is replaced by `input`; a
/// template without `{}` gets `input` appended at its end.
pub fn insert_into_template(template: &str, input: &str) -> (r: String)
    ensures
        r@ == template_result(template@, input@),
{
    if contains_placeholder(template) {
        replace_placeholders(template, input)
    } else if input.is_empty() {
        String::from_str(template)
    } else {
        String::from_str(template).concat(input)
    }
}

/// Without a `{}` in the template, the input always ends up appended to it.
pub proof fn lemma_template_without_placeholder_appends(template: Seq<char>, input: Seq<char>)
    requires
        !has_placeholder(template),
    ensures
        template_result(template, input) == template + input,
{
    if input.len() == 0 {
        assert(template + input =~= template);
    }
}

/// A template with a single `{}` keeps everything around it and has the input
/// in its place.
pub proof fn lemma_template_single_placeholder(a: Seq<char>, b: Seq<char>, input: Seq<char>)
    requires
        !has_placeholder(a),
        !has_placeholder(b),
    ensures
        template_result(a + seq!['{', '}'] + b, input) == a + input + b,
{
    let t = a + seq!['{', '}'] + b;
    assert(t[a.len() as int] == '{' && t[a.len() + 1int] == '}');
    assert(crate::text::placeholder_at(t, a.len() as int));
    lemma_fill_single_placeholder(a, b, input);
}

/// The address opened for a web page: its parameters, joined by spaces, go
/// into the address as [`insert_into_template`] puts them.
pub open spec fn web_page_address(url: Seq<char>, params: Seq<Seq<char>>) -> Seq<char> {
    template_result(url, join_words(params))
}

/// The address that is opened for the web page `url` with `params`.
pub fn web_page_url(url: &str, params: &Vec<String>) -> (r: String)
    ensures
        r@ == web_page_address(url@, views_of(params@)),
{
    let joined = join_with_spaces(params);
    insert_into_template(url, joined.as_str())
}

/// A web address without `{}` that is opened without parameters is opened as it is.
pub proof fn lemma_web_page_without_params(url: Seq<char>)
    requires
        !has_placeholder(url),
    ensures
        web_page_address(url, Seq::empty()) == url,
{
    assert(join_words(Seq::<Seq<char>>::empty()) =~= Seq::<char>::empty());
}

/// What launching an application comes down to.
pub enum LaunchTarget {
    /// Open this address in the default web browser.
    WebPage(String),
    /// Start this program.
    Program(String),
}

/// Decides how `app_name` is launched: a name beginning with `http` is a web
/// address, opened with `params` put into it; any other name is a program,
/// started without them.
pub fn launch_app(app_name: String, params: Vec<String>) -> (target: LaunchTarget)
    ensures
        is_web_address(app_name@) ==> (target matches LaunchTarget::WebPage(url)
            && url@ == web_page_address(app_name@, views_of(params@))),
        !is_web_address(app_name@) ==> (target matches LaunchTarget::Program(program)
            && program@ == app_name@),
{
    if starts_with_http(app_name.as_str()) {
        LaunchTarget::WebPage(web_page_url(app_name.as_str(), &params))
    } else {
        LaunchTarget::Program(app_name)
    }
}

/// The message of a launch refused because the program is not installed.
pub open spec fn app_not_found_message(app_name: Seq<char>) -> Seq<char> {
    "应用 "@ + app_name + " 未找到"@
}

/// The message of a launch whose program could not be started.
pub open spec fn start_failed_message(reason: Seq<char>) -> Seq<char> {
    "启动失败: "@ + reason
}

/// The first step of a checked launch: a program that is not installed is
/// refused; otherwise it may be started.
pub fn check_app_available(app_name: &str, available: bool) -> (r: Result<(), String>)
    ensures
        available ==> r is Ok,
        !available ==> (r matches Err(e) && e@ == app_not_found_message(app_name@)),
{
    if !available {
        let msg = String::from_str("应用 ").concat(app_name).concat(" 未找到");
        return Err(msg);
    }
    Ok(())
}

/// The outcome of a checked launch once the program was started, given the
/// reason it failed to start, if it did.
pub fn start_outcome(start_error: Option<String>) -> (r: Result<(), String>)
    ensures
        start_error is None ==> r is Ok,
        start_error matches Some(reason) ==> (r matches Err(e)
            && e@ == start_failed_message(reason@)),
{
    match start_error {
        None => Ok(()),
        Some(reason) => Err(String::from_str("启动失败: ").concat(reason.as_str())),
    }
}

/// The launcher configured for `app_name` in `apps_list`: the string stored
/// under that name, when `apps_list` is an object holding one.
pub fn match_app_name(apps_list: &JsonValue, app_name: &str) -> (r: Option<String>)
    ensures
        r matches Some(s) ==> (member(*apps_list, app_name@) matches Some(JsonValue::String(t))
            && s@ == t@),
        r is None ==> !(member(*apps_list, app_name@) matches Some(JsonValue::String(_))),
{
    match apps_list.get(app_name) {
        Some(JsonValue::String(s)) => Some(s.clone()),
        _ => None,
    }
}

} // verus!
