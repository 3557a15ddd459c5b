//! The prompt that asks for the user name before an SSH connection to a
//! server, and the destination it connects to.

use vstd::prelude::*;
use crate::action::{Action, Mode, TuiError};
use crate::navigation_key::{KeyCode, KeyEvent};
use crate::text::{clone_text, concat3, is_blank, opt_view, owned, pop_char, push_char, trim, trimmed};

verus! {

/// The `ssh` destination for a user and a host: `user@host` with the user's
/// surrounding whitespace removed, or the host alone when no user is left.
pub open spec fn ssh_destination_of(user: Seq<char>, host: Seq<char>) -> Seq<char> {
    if trimmed(user).len() == 0 {
        host
    } else {
        trimmed(user) + "@"@ + host
    }
}

/// The destination `ssh` is given for `user` on `host`.
pub fn ssh_destination(user: &str, host: &str) -> (r: String)
    ensures
        r@ == ssh_destination_of(user@, host@),
{
    let user = trim(user);
    if user.is_empty() {
        owned(host)
    } else {
        concat3(user, "@", host)
    }
}

/// The environment variables that may name the local user, in the order in
/// which they are consulted.
pub fn ssh_user_env_keys() -> (r: Vec<&'static str>)
    ensures
        r@.len() == 3,
        r@[0]@ == "USER"@,
        r@[1]@ == "LOGNAME"@,
        r@[2]@ == "USERNAME"@,
{
    let mut r: Vec<&'static str> = Vec::new();
    r.push("USER");
    r.push("LOGNAME");
    r.push("USERNAME");
    r
}

/// The first value that is present and not blank, or the empty text.
pub open spec fn first_usable_user(values: Seq<Option<String>>) -> Seq<char>
    decreases values.len(),
{
    if values.len() == 0 {
        Seq::empty()
    } else {
        match values[0] {
            Some(v) => if !is_blank(v@) {
                v@
            } else {
                first_usable_user(values.drop_first())
            },
            None => first_usable_user(values.drop_first()),
        }
    }
}

/// The local user name to offer, from the values of the variables of
/// `ssh_user_env_keys` in that order (`None` where a variable is unset):
/// the first that is not blank, as it stands, or the empty text.
pub fn runtime_ssh_user_from(values: &Vec<Option<String>>) -> (r: String)
    ensures
        r@ == first_usable_user(values@),
{
    let mut i: usize = 0;
    assert(values@.subrange(0, values@.len() as int) =~= values@);
    while i < values.len()
        invariant
            i <= values@.len(),
            first_usable_user(values@.subrange(i as int, values@.len() as int)) == first_usable_user(
                values@,
            ),
        decreases values@.len() - i,
    {
        let rest = Ghost(values@.subrange(i as int, values@.len() as int));
        assert(rest@.drop_first() =~= values@.subrange(i + 1, values@.len() as int));
        match &values[i] {
            Some(v) => {
                let t = trim(v.as_str());
                if !t.is_empty() {
                    return v.clone();
                }
            },
            None => {},
        }
        i = i + 1;
    }
    assert(values@.subrange(i as int, values@.len() as int) =~= Seq::<Option<String>>::empty());
    String::new()
}

/// The offered user name is either empty or holds more than whitespace; it
/// is empty only when every value is unset or blank.
pub proof fn lemma_offered_user_is_usable(values: Seq<Option<String>>)
    ensures
        first_usable_user(values).len() == 0 || !is_blank(first_usable_user(values)),
        first_usable_user(values).len() == 0 ==> forall|i: int|
            0 <= i < values.len() && #[trigger] values[i] is Some ==> is_blank(
                values[i].unwrap()@,
            ),
    decreases values.len(),
{
    if values.len() > 0 {
        lemma_offered_user_is_usable(values.drop_first());
        if first_usable_user(values).len() == 0 {
            assert forall|i: int| 0 <= i < values.len() && #[trigger] values[i] is Some implies is_blank(
                values[i].unwrap()@,
            ) by {
                if i > 0 {
                    assert(values.drop_first()[i - 1] == values[i]);
                } else {
                    if !is_blank(values[0].unwrap()@) {
                        assert(first_usable_user(values) == values[0].unwrap()@);
                        crate::text::lemma_trimmed_has_no_outer_whitespace(values[0].unwrap()@);
                    }
                }
            }
        }
    }
}

/// The user text after a key press in the prompt: Enter and Esc clear it,
/// Backspace and Delete remove its last character, a character key appends
/// itself.
pub open spec fn input_after(input: Seq<char>, code: KeyCode) -> Seq<char> {
    match code {
        KeyCode::Enter => Seq::empty(),
        KeyCode::Esc => Seq::empty(),
        KeyCode::Backspace => if input.len() == 0 {
            input
        } else {
            input.drop_last()
        },
        KeyCode::Delete => if input.len() == 0 {
            input
        } else {
            input.drop_last()
        },
        KeyCode::Char(c) => input.push(c),
        _ => input,
    }
}

/// The host after a key press in the prompt: Enter and Esc close the prompt.
pub open spec fn host_after(host: Option<Seq<char>>, code: KeyCode) -> Option<Seq<char>> {
    match code {
        KeyCode::Enter => None,
        KeyCode::Esc => None,
        _ => host,
    }
}

/// The destination that a key press asks to connect to: Enter does, when a
/// host is set.
pub open spec fn destination_after(
    input: Seq<char>,
    host: Option<Seq<char>>,
    code: KeyCode,
) -> Option<Seq<char>> {
    if code == KeyCode::Enter && host is Some {
        Some(ssh_destination_of(input, host.unwrap()))
    } else {
        None
    }
}

/// Whether `reply` runs `ssh` with `destination` as its only argument.
pub open spec fn runs_ssh_to(reply: Action, destination: Seq<char>) -> bool {
    match reply {
        Action::RunTerminalCommand { program, args } => program@ == "ssh"@ && args@.len() == 1
            && args@[0]@ == destination,
        _ => false,
    }
}

/// The prompt for the user of an SSH connection: the user typed so far and
/// the host to connect to, while the prompt is open.
pub struct SshUserPopup {
    pub input: String,
    pub host: Option<String>,
}

impl SshUserPopup {
    /// A closed prompt.
    pub fn new() -> (p: SshUserPopup)
        ensures
            p.input@ == Seq::<char>::empty(),
            p.host is None,
    {
        SshUserPopup { input: String::new(), host: None }
    }

    /// Closes the prompt and forgets what was typed.
    fn reset(&mut self)
        ensures
            final(self).input@ == Seq::<char>::empty(),
            final(self).host is None,
    {
        self.input = String::new();
        self.host = None;
    }

    /// Handles a key press: edits the user, closes the prompt, or on Enter
    /// asks to run `ssh` to the destination when a host is set.
    pub fn handle_key_events(&mut self, key: KeyEvent) -> (r: Result<Option<Action>, TuiError>)
        ensures
            final(self).input@ == input_after(old(self).input@, key.code),
            opt_view(final(self).host) == host_after(opt_view(old(self).host), key.code),
            match r {
                Ok(Some(reply)) => destination_after(
                    old(self).input@,
                    opt_view(old(self).host),
                    key.code,
                ) is Some && runs_ssh_to(
                    reply,
                    destination_after(old(self).input@, opt_view(old(self).host), key.code).unwrap(),
                ),
                Ok(None) => destination_after(
                    old(self).input@,
                    opt_view(old(self).host),
                    key.code,
                ) is None,
                Err(_) => false,
            },
    {
        proof {
            reveal_strlit("ssh");
        }
        match key.code {
            KeyCode::Enter => {
                let host = match clone_text(&self.host) {
                    Some(h) => h,
                    None => {
                        self.reset();
                        return Ok(None);
                    },
                };
                let destination = ssh_destination(self.input.as_str(), host.as_str());
                self.reset();
                let mut args: Vec<String> = Vec::new();
                args.push(destination);
                Ok(Some(Action::RunTerminalCommand { program: owned("ssh"), args }))
            },
            KeyCode::Esc => {
                self.reset();
                Ok(None)
            },
            KeyCode::Backspace | KeyCode::Delete => {
                let _ = pop_char(&mut self.input);
                Ok(None)
            },
            KeyCode::Char(ch) => {
                push_char(&mut self.input, ch);
                Ok(None)
            },
            _ => Ok(None),
        }
    }

    /// Handles a message: a request to prompt for the user of `host` opens
    /// the prompt on that host with `runtime_user`, the local user name, as
    /// the proposed user. Nothing is answered.
    pub fn update(&mut self, action: Action, current_mode: Mode, runtime_user: String) -> (r:
        Result<Option<Action>, TuiError>)
        ensures
            r == Ok::<Option<Action>, TuiError>(None),
            match action {
                Action::PromptSshUser { host } => final(self).host == Some(host)
                    && final(self).input == runtime_user,
                _ => final(self).host == old(self).host && final(self).input == old(self).input,
            },
    {
        if let Action::PromptSshUser { host } = action {
            self.host = Some(host);
            self.input = runtime_user;
        }
        Ok(None)
    }

    /// The line that names the host in the prompt.
    pub fn host_line(&self) -> (r: String)
        ensures
            r@ == "Host: "@ + match opt_view(self.host) {
                Some(h) => h,
                None => Seq::empty(),
            },
    {
        proof {
            reveal_strlit("");
        }
        match &self.host {
            Some(h) => concat3("Host: ", h.as_str(), ""),
            None => owned("Host: "),
        }
    }
}

impl Default for SshUserPopup {
    fn default() -> (p: SshUserPopup)
        ensures
            p.input@ == Seq::<char>::empty(),
            p.host is None,
    {
        SshUserPopup::new()
    }
}

/// Backspace takes back the character just typed.
pub proof fn lemma_backspace_undoes_typing(input: Seq<char>, c: char)
    ensures
        input_after(input_after(input, KeyCode::Char(c)), KeyCode::Backspace) == input,
{
    assert(input.push(c).drop_last() =~= input);
}

/// Every key but Enter and Esc leaves the prompt open on the same host and
/// asks for no connection; Backspace and Delete remove only the last
/// character typed (nothing from an empty input), a character key appends
/// only itself, and any other key leaves the input as it is.
pub proof fn lemma_editing_keys_keep_the_prompt(
    input: Seq<char>,
    host: Option<Seq<char>>,
    code: KeyCode,
)
    requires
        code != KeyCode::Enter,
        code != KeyCode::Esc,
    ensures
        host_after(host, code) == host,
        destination_after(input, host, code) is None,
        code == KeyCode::Backspace || code == KeyCode::Delete ==> (if input.len() == 0 {
            input_after(input, code) == input
        } else {
            input_after(input, code).len() == input.len() - 1 && input_after(input, code)
                =~= input.subrange(0, input.len() - 1)
        }),
        code is Char ==> input_after(input, code).len() == input.len() + 1 && input_after(
            input,
            code,
        ).subrange(0, input.len() as int) =~= input && input_after(input, code)[input.len() as int]
            == code->Char_0,
        !(code is Char || code == KeyCode::Backspace || code == KeyCode::Delete) ==> input_after(
            input,
            code,
        ) == input,
{
}

/// Enter and Esc leave the prompt closed and empty.
pub proof fn lemma_enter_and_esc_close_the_prompt(
    input: Seq<char>,
    host: Option<Seq<char>>,
)
    ensures
        input_after(input, KeyCode::Enter).len() == 0,
        input_after(input, KeyCode::Esc).len() == 0,
        host_after(host, KeyCode::Enter) is None,
        host_after(host, KeyCode::Esc) is None,
        destination_after(input, host, KeyCode::Esc) is None,
{
}

/// Enter on an open prompt connects to a destination that ends with the
/// host; before it comes the typed user without surrounding whitespace, and
/// an `@`, unless nothing but whitespace was typed.
pub proof fn lemma_destination_ends_with_host(input: Seq<char>, host: Seq<char>)
    ensures
        ({
            let d = destination_after(input, Some(host), KeyCode::Enter).unwrap();
            &&& d.len() >= host.len()
            &&& d.subrange(d.len() - host.len(), d.len() as int) == host
            &&& is_blank(input) ==> d == host
            &&& !is_blank(input) ==> d.subrange(0, d.len() - host.len()) == trimmed(input)
                + "@"@
        }),
{
    let d = destination_after(input, Some(host), KeyCode::Enter).unwrap();
    if !is_blank(input) {
        assert(d.subrange(d.len() - host.len(), d.len() as int) =~= host);
        assert(d.subrange(0, d.len() - host.len()) =~= trimmed(input) + "@"@);
    } else {
        assert(d.subrange(d.len() - host.len(), d.len() as int) =~= host);
    }
}

} // verus!
