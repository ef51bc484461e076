//! The pure computation behind each route: what body a request produces,
//! and which cookie actions come with it. The framework around the library
//! matches routes, binds forms and carries the cookies; every function here
//! takes the already-bound values and pins its output exactly.

use vstd::prelude::*;
use crate::forms::Task;
use crate::forms::User;
use crate::numbers::dec_string;
use crate::numbers::dec_string_signed;
use crate::numbers::fmt_isize;
use crate::numbers::fmt_u64;
use crate::numbers::fmt_usize;
use crate::trim::trim_nul;
use crate::trim::trim_nul_str;

verus! {

/// A cookie the caller is asked to set, name and value.
pub struct SetCookie {
    pub name: String,
    pub value: String,
}

/// What a logout asks the caller to do: drop a cookie, then redirect with a
/// one-time message.
pub struct LogoutAction {
    pub remove_cookie: String,
    pub redirect: String,
    pub message: String,
}

/// The view of an optional string argument.
pub open spec fn opt_str_view(o: Option<String>) -> Option<Seq<char>> {
    match o {
        Some(s) => Some(s@),
        None => None,
    }
}

/// The view of an optional (name, value) cookie pair.
pub open spec fn opt_pair_view(o: Option<(String, String)>) -> Option<(Seq<char>, Seq<char>)> {
    match o {
        Some((a, b)) => Some((a@, b@)),
        None => None,
    }
}

/// The view of an optional bound user record.
pub open spec fn opt_user_view(o: Option<User>) -> Option<(Seq<char>, nat)> {
    match o {
        Some(u) => Some((u.name@, u.account as nat)),
        None => None,
    }
}

/// The front page echoes the `message` cookie as `name=value` if one came
/// with the request, and greets the world otherwise.
pub open spec fn index_msg(cookie: Option<(Seq<char>, Seq<char>)>) -> Seq<char> {
    match cookie {
        Some((name, value)) => "Message: "@ + name + "="@ + value,
        None => "Hello, world!"@,
    }
}

/// Body of the front page; `message` is the cookie of that name, if the
/// request carried one.
pub fn index(message: Option<(String, String)>) -> (r: String)
    ensures
        r@ == index_msg(opt_pair_view(message)),
{
    match message {
        Some((name, value)) => {
            let mut r = String::from_str("Message: ");
            r.append(name.as_str());
            r.append("=");
            r.append(value.as_str());
            r
        },
        None => String::from_str("Hello, world!"),
    }
}

/// The greeting for a path-bound name.
pub open spec fn hello_msg(name: Seq<char>) -> Seq<char> {
    "Hello, "@ + name + "!"@
}

/// Body of the named greeting route.
pub fn hello(name: String) -> (r: String)
    ensures
        r@ == hello_msg(name@),
{
    let mut r = String::from_str("Hello, ");
    r.append(name.as_str());
    r.append("!");
    r
}

/// The wave greeting: personal when a name came in the query, plain
/// otherwise.
pub open spec fn hello_wave_msg(name: Option<Seq<char>>) -> Seq<char> {
    match name {
        Some(n) => "Hi, "@ + n + "!"@,
        None => "Hello!"@,
    }
}

/// Body of the wave greeting route.
pub fn hello_wave(name: Option<String>) -> (r: String)
    ensures
        r@ == hello_wave_msg(opt_str_view(name)),
{
    match name {
        Some(n) => {
            let mut r = String::from_str("Hi, ");
            r.append(n.as_str());
            r.append("!");
            r
        },
        None => String::from_str("Hello!"),
    }
}

/// The greeting of the first-ranked user route.
pub open spec fn user_msg(id: nat) -> Seq<char> {
    "Hello (1) user "@ + dec_string(id) + "!"@
}

/// First-ranked user route: asks the caller to set the private `user_id`
/// cookie to the id in decimal, and greets.
pub fn user(id: usize) -> (r: (SetCookie, String))
    ensures
        r.0.name@ == "user_id"@,
        r.0.value@ == dec_string(id as nat),
        r.1@ == user_msg(id as nat),
{
    let cookie = SetCookie { name: String::from_str("user_id"), value: fmt_usize(id) };
    let mut body = String::from_str("Hello (1) user ");
    let num = fmt_usize(id);
    body.append(num.as_str());
    body.append("!");
    (cookie, body)
}

/// The greeting of the second-ranked user route, for a signed id.
pub open spec fn user_int_msg(id: int) -> Seq<char> {
    "Hello (2) user "@ + dec_string_signed(id) + "!"@
}

/// Second-ranked user route, matching ids that read as a signed integer.
pub fn user_int(id: isize) -> (r: String)
    ensures
        r@ == user_int_msg(id as int),
{
    let mut r = String::from_str("Hello (2) user ");
    let num = fmt_isize(id);
    r.append(num.as_str());
    r.append("!");
    r
}

/// The greeting of the third-ranked user route, for a raw id segment.
pub open spec fn user_str_msg(id: Seq<char>) -> Seq<char> {
    "Hello (3) user "@ + id + "!"@
}

/// Third-ranked user route, taking the path segment as it came.
pub fn user_str(id: &str) -> (r: String)
    ensures
        r@ == user_str_msg(id@),
{
    let mut r = String::from_str("Hello (3) user ");
    r.append(id);
    r.append("!");
    r
}

/// The body reporting a stored user id, when the private cookie holds one.
pub open spec fn user_id_msg(cookie: Option<Seq<char>>) -> Option<Seq<char>> {
    match cookie {
        Some(v) => Some("User ID: "@ + v),
        None => None,
    }
}

/// Reports the value of the private `user_id` cookie, if any; without one
/// the route has no body.
pub fn user_id(cookie: Option<String>) -> (r: Option<String>)
    ensures
        opt_str_view(r) == user_id_msg(opt_str_view(cookie)),
{
    match cookie {
        Some(v) => {
            let mut r = String::from_str("User ID: ");
            r.append(v.as_str());
            Some(r)
        },
        None => None,
    }
}

/// The item page: id alone, or id with the user bound from the rest of the
/// query.
pub open spec fn item_msg(id: nat, user: Option<(Seq<char>, nat)>) -> Seq<char> {
    match user {
        Some((name, account)) => "item "@ + dec_string(id) + " for user "@ + name + " aka "@
            + dec_string(account) + "!"@,
        None => "item "@ + dec_string(id),
    }
}

/// Body of the item route.
pub fn item(id: usize, user: Option<User>) -> (r: String)
    ensures
        r@ == item_msg(id as nat, opt_user_view(user)),
{
    match user {
        Some(u) => {
            let mut r = String::from_str("item ");
            let ids = fmt_usize(id);
            r.append(ids.as_str());
            r.append(" for user ");
            r.append(u.name.as_str());
            r.append(" aka ");
            let accs = fmt_usize(u.account);
            r.append(accs.as_str());
            r.append("!");
            r
        },
        None => {
            let mut r = String::from_str("item ");
            let ids = fmt_usize(id);
            r.append(ids.as_str());
            r
        },
    }
}

/// The acknowledgement for a user posted as a JSON body.
pub open spec fn new_user_msg(name: Seq<char>, account: nat) -> Seq<char> {
    "new user "@ + name + " aka "@ + dec_string(account) + "!"@
}

/// Body of the user-creation route.
pub fn new_user(user: User) -> (r: String)
    ensures
        r@ == new_user_msg(user.name@, user.account as nat),
{
    let mut r = String::from_str("new user ");
    r.append(user.name.as_str());
    r.append(" aka ");
    let accs = fmt_usize(user.account);
    r.append(accs.as_str());
    r.append("!");
    r
}

/// The acknowledgement for a task posted as a strict form.
pub open spec fn new_task_msg(api_type: Seq<char>, description: Seq<char>) -> Seq<char> {
    api_type + " |"@ + description
}

/// Body of the strict task route.
pub fn new_task(task: Task) -> (r: String)
    ensures
        r@ == new_task_msg(task.api_type@, task.description@),
{
    let mut r = task.api_type;
    r.append(" |");
    r.append(task.description.as_str());
    r
}

/// The acknowledgement for a task posted as a lenient form.
pub open spec fn new_task_lenient_msg(description: Seq<char>) -> Seq<char> {
    "Trimmed to: "@ + description
}

/// Body of the lenient task route.
pub fn new_task_lenient(task: Task) -> (r: String)
    ensures
        r@ == new_task_lenient_msg(task.description@),
{
    let mut r = String::from_str("Trimmed to: ");
    r.append(task.description.as_str());
    r
}

/// Body of the plain upload route: how many bytes were written, in decimal.
pub fn upload(byte_count: u64) -> (r: String)
    ensures
        r@ == dec_string(byte_count as nat),
{
    fmt_u64(byte_count)
}

/// The message of the size-limited upload route: the decoded buffer with
/// its NUL padding stripped from both ends. The same text is the response
/// body and what the caller stores.
pub fn upload_limit(text: &str) -> (r: String)
    ensures
        r@ == trim_nul(text@),
{
    trim_nul_str(text)
}

/// Logging out: asks the caller to remove the private `user_id` cookie and
/// to redirect home with a success message.
pub fn logout() -> (r: LogoutAction)
    ensures
        r.remove_cookie@ == "user_id"@,
        r.redirect@ == "/"@,
        r.message@ == "Successfully logged out."@,
{
    LogoutAction {
        remove_cookie: String::from_str("user_id"),
        redirect: String::from_str("/"),
        message: String::from_str("Successfully logged out."),
    }
}

} // verus!
