//! The login prompt: a username field and a password field edited one
//! input byte at a time, with the keys the prompt gives meaning to.
use vstd::prelude::*;

verus! {

/// Ctrl-U: empties the field being edited.
pub const KEY_CLEAR_LINE: u8 = 0x15;

/// Ctrl-K: empties the field being edited.
pub const KEY_KILL_LINE: u8 = 0x0B;

/// Ctrl-C: abandons the prompt.
pub const KEY_INTERRUPT: u8 = 0x03;

/// Ctrl-D: abandons the prompt.
pub const KEY_END_OF_FILE: u8 = 0x04;

/// Backspace: removes the last character of the field being edited.
pub const KEY_BACKSPACE: u8 = 0x7F;

/// Tab: switches between the two fields.
pub const KEY_TAB: u8 = 0x09;

/// Enter: moves on from the username, or submits the login.
pub const KEY_ENTER: u8 = 0x0D;

/// Which field the typed characters go to.
#[derive(Debug, Clone, Copy, PartialEq, Eq, Structural)]
pub enum Mode {
    EditingUsername,
    EditingPassword,
}

/// The other field.
pub open spec fn other_mode(m: Mode) -> Mode {
    match m {
        Mode::EditingUsername => Mode::EditingPassword,
        Mode::EditingPassword => Mode::EditingUsername,
    }
}

/// `key` is typed into a field as a character: it is none of the keys the
/// prompt gives a meaning to.
pub open spec fn is_text_key(key: u8) -> bool {
    key != KEY_CLEAR_LINE && key != KEY_KILL_LINE && key != KEY_INTERRUPT && key
        != KEY_END_OF_FILE && key != KEY_BACKSPACE && key != KEY_TAB && key != KEY_ENTER
}

/// How many bytes of UTF-8 the character with code `b` takes: each input
/// byte is the character of that code.
pub open spec fn char_width(b: u8) -> nat {
    if b < 0x80 {
        1
    } else {
        2
    }
}

/// How many bytes of UTF-8 the text of the input bytes `s` takes.
pub open spec fn text_len(s: Seq<u8>) -> nat
    decreases s.len(),
{
    if s.len() == 0 {
        0
    } else {
        text_len(s.drop_last()) + char_width(s.last())
    }
}

/// Whether a field must be drawn again, given the length of its text and
/// the length it was last drawn with: `Some(true)` when it shrank, so that
/// the old text must be wiped first, `Some(false)` when it grew, `None`
/// when its length is the same.
pub open spec fn field_redraw(len: nat, shown: nat) -> Option<bool> {
    if len != shown {
        Some(len < shown)
    } else {
        None
    }
}

/// What a key asks of the program around the prompt.
pub enum KeyEffect {
    /// Nothing beyond redrawing.
    Continue,
    /// Cancel the pending greetd session and stop.
    Quit,
    /// Log in with this username and password.
    Login { username: Seq<u8>, password: Seq<u8> },
}

/// The state of the prompt.
pub struct PromptState {
    pub mode: Mode,
    pub username: Seq<u8>,
    pub password: Seq<u8>,
    /// The length of the username text when it was last drawn.
    pub shown_username_len: nat,
    /// The length of the password text when it was last drawn.
    pub shown_password_len: nat,
    /// The last login failed and its colour is still on the screen.
    pub had_failure: bool,
}

impl PromptState {
    /// The field being edited.
    pub open spec fn field(self) -> Seq<u8> {
        match self.mode {
            Mode::EditingUsername => self.username,
            Mode::EditingPassword => self.password,
        }
    }

    /// This state with the field being edited replaced by `f`.
    pub open spec fn with_field(self, f: Seq<u8>) -> PromptState {
        match self.mode {
            Mode::EditingUsername => PromptState { username: f, ..self },
            Mode::EditingPassword => PromptState { password: f, ..self },
        }
    }

    /// Both texts can be held in a `String`.
    pub open spec fn well_formed(self) -> bool {
        &&& text_len(self.username) <= isize::MAX
        &&& text_len(self.password) <= isize::MAX
    }

    /// `key` can be taken: a character typed into the field still leaves
    /// its text within what a `String` holds.
    pub open spec fn accepts(self, key: u8) -> bool {
        is_text_key(key) ==> text_len(self.field()) + char_width(key) <= isize::MAX
    }

    /// The state after `key`.
    pub open spec fn after_key(self, key: u8) -> PromptState {
        let s = PromptState { had_failure: false, ..self };
        if key == KEY_CLEAR_LINE || key == KEY_KILL_LINE {
            s.with_field(Seq::empty())
        } else if key == KEY_INTERRUPT || key == KEY_END_OF_FILE {
            PromptState { username: Seq::empty(), password: Seq::empty(), ..s }
        } else if key == KEY_BACKSPACE {
            if s.field().len() == 0 {
                s
            } else {
                s.with_field(s.field().drop_last())
            }
        } else if key == KEY_TAB {
            PromptState { mode: other_mode(s.mode), ..s }
        } else if key == KEY_ENTER {
            match s.mode {
                Mode::EditingUsername => {
                    if s.username.len() > 0 {
                        PromptState { mode: Mode::EditingPassword, ..s }
                    } else {
                        s
                    }
                },
                Mode::EditingPassword => {
                    if s.password.len() == 0 {
                        PromptState { username: Seq::empty(), mode: Mode::EditingUsername, ..s }
                    } else {
                        PromptState { username: Seq::empty(), password: Seq::empty(), ..s }
                    }
                },
            }
        } else {
            s.with_field(s.field().push(key))
        }
    }

    /// The state after the login just submitted failed: back on the
    /// username field, with the failure shown.
    pub open spec fn after_login_failure(self) -> PromptState {
        PromptState { mode: Mode::EditingUsername, had_failure: true, ..self }
    }

    /// The state after one turn of the prompt: `key` is taken and, where it
    /// submits a login, greetd's answer is `succeeded`.
    pub open spec fn after_turn(self, key: u8, succeeded: bool) -> PromptState {
        if self.key_effect(key) is Login && !succeeded {
            self.after_key(key).after_login_failure()
        } else {
            self.after_key(key)
        }
    }

    /// What `key` asks of the program around the prompt.
    pub open spec fn key_effect(self, key: u8) -> KeyEffect {
        if key == KEY_INTERRUPT || key == KEY_END_OF_FILE {
            KeyEffect::Quit
        } else if key == KEY_ENTER && self.mode == Mode::EditingPassword && self.password.len() > 0 {
            KeyEffect::Login { username: self.username, password: self.password }
        } else {
            KeyEffect::Continue
        }
    }
}

/// The state after the turns that take `keys` one by one, the login that
/// key `j` submits, if any, answered by `outcomes[j]`.
pub open spec fn after_turns(m: PromptState, keys: Seq<u8>, outcomes: Seq<bool>) -> PromptState
    decreases keys.len(),
{
    if keys.len() == 0 {
        m
    } else {
        after_turns(m, keys.drop_last(), outcomes).after_turn(
            keys.last(),
            outcomes[keys.len() - 1],
        )
    }
}

/// What a key asks of the program around the prompt.
pub enum KeyAction {
    /// Nothing beyond redrawing.
    Continue,
    /// Cancel the pending greetd session and stop.
    Quit,
    /// Log in with these input bytes as username and password.
    Login { username: Vec<u8>, password: Vec<u8> },
}

impl View for KeyAction {
    type V = KeyEffect;

    open spec fn view(&self) -> KeyEffect {
        match self {
            KeyAction::Continue => KeyEffect::Continue,
            KeyAction::Quit => KeyEffect::Quit,
            KeyAction::Login { username, password } => KeyEffect::Login {
                username: username@,
                password: password@,
            },
        }
    }
}

/// The answer to one key.
pub struct KeyOutcome {
    /// The colour of a failed login is to be replaced by the normal one.
    pub restore_background: bool,
    pub action: KeyAction,
}

/// Which fields to draw again before reading the next key; see
/// `field_redraw`.
#[derive(Debug, Clone, Copy, PartialEq, Eq)]
pub struct Redraw {
    pub username: Option<bool>,
    pub password: Option<bool>,
}

/// The login prompt.
pub struct Greeter {
    mode: Mode,
    username: Vec<u8>,
    password: Vec<u8>,
    last_username_len: usize,
    last_password_len: usize,
    had_failure: bool,
}

impl View for Greeter {
    type V = PromptState;

    closed spec fn view(&self) -> PromptState {
        PromptState {
            mode: self.mode,
            username: self.username@,
            password: self.password@,
            shown_username_len: self.last_username_len as nat,
            shown_password_len: self.last_password_len as nat,
            had_failure: self.had_failure,
        }
    }
}

proof fn lemma_text_len_take(s: Seq<u8>, i: int)
    requires
        0 <= i < s.len(),
    ensures
        text_len(s.take(i + 1)) == text_len(s.take(i)) + char_width(s[i]),
{
    assert(s.take(i + 1).drop_last() =~= s.take(i));
}

proof fn lemma_text_len_prefix(s: Seq<u8>, i: int)
    requires
        0 <= i <= s.len(),
    ensures
        text_len(s.take(i)) <= text_len(s),
    decreases s.len() - i,
{
    if i < s.len() {
        lemma_text_len_take(s, i);
        lemma_text_len_prefix(s, i + 1);
    } else {
        assert(s.take(i) =~= s);
    }
}

proof fn lemma_text_len_push(s: Seq<u8>, b: u8)
    ensures
        text_len(s.push(b)) == text_len(s) + char_width(b),
{
    assert(s.push(b).drop_last() =~= s);
}

proof fn lemma_after_key_well_formed(m: PromptState, key: u8)
    requires
        m.well_formed(),
        m.accepts(key),
    ensures
        m.after_key(key).well_formed(),
{
    lemma_text_len_push(m.field(), key);
    assert(text_len(Seq::<u8>::empty()) == 0);
}

/// The length in bytes of the UTF-8 text of the input bytes `s`.
fn text_len_of(s: &Vec<u8>) -> (r: usize)
    requires
        text_len(s@) <= usize::MAX,
    ensures
        r == text_len(s@),
{
    let mut n: usize = 0;
    let mut i: usize = 0;
    while i < s.len()
        invariant
            i <= s@.len(),
            n == text_len(s@.take(i as int)),
            text_len(s@) <= usize::MAX,
        decreases s@.len() - i,
    {
        proof {
            lemma_text_len_take(s@, i as int);
            lemma_text_len_prefix(s@, i + 1);
        }
        if s[i] < 0x80 {
            n = n + 1;
        } else {
            n = n + 2;
        }
        i = i + 1;
    }
    assert(s@.take(i as int) =~= s@);
    n
}

impl Greeter {
    /// An empty prompt on the username field.
    pub fn new() -> (r: Self)
        ensures
            r@ == (PromptState {
                mode: Mode::EditingUsername,
                username: Seq::empty(),
                password: Seq::empty(),
                shown_username_len: 0,
                shown_password_len: 0,
                had_failure: false,
            }),
            r@.well_formed(),
    {
        Greeter {
            mode: Mode::EditingUsername,
            username: Vec::new(),
            password: Vec::new(),
            last_username_len: 0,
            last_password_len: 0,
            had_failure: false,
        }
    }

    /// The field being edited.
    pub fn mode(&self) -> (r: Mode)
        ensures
            r == self@.mode,
    {
        self.mode
    }

    /// The input bytes of the username.
    pub fn username(&self) -> (r: &Vec<u8>)
        ensures
            r@ == self@.username,
    {
        &self.username
    }

    /// Whether `key` can be taken; see `PromptState::accepts`.
    pub fn accepts(&self, key: u8) -> (r: bool)
        requires
            self@.well_formed(),
        ensures
            r == self@.accepts(key),
            key == KEY_CLEAR_LINE || key == KEY_KILL_LINE || key == KEY_INTERRUPT || key
                == KEY_END_OF_FILE || key == KEY_BACKSPACE || key == KEY_TAB || key == KEY_ENTER
                ==> r,
            is_text_key(key) ==> (r <==> text_len(self@.field()) + char_width(key) <= isize::MAX),
    {
        let is_text = key != KEY_CLEAR_LINE && key != KEY_KILL_LINE && key != KEY_INTERRUPT && key
            != KEY_END_OF_FILE && key != KEY_BACKSPACE && key != KEY_TAB && key != KEY_ENTER;
        if !is_text {
            return true;
        }
        let len = match self.mode {
            Mode::EditingUsername => text_len_of(&self.username),
            Mode::EditingPassword => text_len_of(&self.password),
        };
        let width: usize = if key < 0x80 {
            1
        } else {
            2
        };
        len <= (isize::MAX as usize) - width
    }

    /// Which fields must be drawn again, and records their lengths as
    /// drawn.
    pub fn take_redraws(&mut self) -> (r: Redraw)
        requires
            old(self)@.well_formed(),
        ensures
            r.username == field_redraw(
                text_len(old(self)@.username),
                old(self)@.shown_username_len,
            ),
            r.password == field_redraw(
                text_len(old(self)@.password),
                old(self)@.shown_password_len,
            ),
            text_len(old(self)@.username) < old(self)@.shown_username_len ==> r.username == Some(
                true,
            ),
            text_len(old(self)@.username) > old(self)@.shown_username_len ==> r.username == Some(
                false,
            ),
            text_len(old(self)@.username) == old(self)@.shown_username_len ==> r.username
                is None,
            text_len(old(self)@.password) < old(self)@.shown_password_len ==> r.password == Some(
                true,
            ),
            text_len(old(self)@.password) > old(self)@.shown_password_len ==> r.password == Some(
                false,
            ),
            text_len(old(self)@.password) == old(self)@.shown_password_len ==> r.password
                is None,
            final(self)@ == (PromptState {
                shown_username_len: text_len(old(self)@.username),
                shown_password_len: text_len(old(self)@.password),
                ..old(self)@
            }),
    {
        let ulen = text_len_of(&self.username);
        let plen = text_len_of(&self.password);
        let username = if ulen != self.last_username_len {
            Some(ulen < self.last_username_len)
        } else {
            None
        };
        let password = if plen != self.last_password_len {
            Some(plen < self.last_password_len)
        } else {
            None
        };
        self.last_username_len = ulen;
        self.last_password_len = plen;
        Redraw { username, password }
    }

    /// As many `*` as the password text has bytes.
    pub fn password_mask(&self) -> (r: String)
        requires
            self@.well_formed(),
        ensures
            r@ == Seq::new(text_len(self@.password), |i: int| '*'),
    {
        let n = text_len_of(&self.password);
        let mut stars = String::new();
        let mut i: usize = 0;
        while i < n
            invariant
                i <= n,
                stars@ == Seq::new(i as nat, |j: int| '*'),
            decreases n - i,
        {
            proof {
                reveal_strlit("*");
            }
            stars.append("*");
            assert(stars@ =~= Seq::new((i + 1) as nat, |j: int| '*'));
            i = i + 1;
        }
        stars
    }

    /// Takes one input byte.
    pub fn handle_key(&mut self, key: u8) -> (r: KeyOutcome)
        requires
            old(self)@.well_formed(),
            old(self)@.accepts(key),
        ensures
            final(self)@ == old(self)@.after_key(key),
            final(self)@.well_formed(),
            r.restore_background == old(self)@.had_failure,
            r.action@ == old(self)@.key_effect(key),
    {
        let restore_background = self.had_failure;
        self.had_failure = false;
        let action = if key == KEY_CLEAR_LINE || key == KEY_KILL_LINE {
            match self.mode {
                Mode::EditingUsername => self.username.clear(),
                Mode::EditingPassword => self.password.clear(),
            }
            KeyAction::Continue
        } else if key == KEY_INTERRUPT || key == KEY_END_OF_FILE {
            self.username.clear();
            self.password.clear();
            KeyAction::Quit
        } else if key == KEY_BACKSPACE {
            match self.mode {
                Mode::EditingUsername => {
                    self.username.pop();
                },
                Mode::EditingPassword => {
                    self.password.pop();
                },
            }
            KeyAction::Continue
        } else if key == KEY_TAB {
            self.mode = match self.mode {
                Mode::EditingUsername => Mode::EditingPassword,
                Mode::EditingPassword => Mode::EditingUsername,
            };
            KeyAction::Continue
        } else if key == KEY_ENTER {
            match self.mode {
                Mode::EditingUsername => {
                    if !self.username.is_empty() {
                        self.mode = Mode::EditingPassword;
                    }
                    KeyAction::Continue
                },
                Mode::EditingPassword => {
                    if self.password.is_empty() {
                        self.username.clear();
                        self.mode = Mode::EditingUsername;
                        KeyAction::Continue
                    } else {
                        let mut username: Vec<u8> = Vec::new();
                        let mut password: Vec<u8> = Vec::new();
                        std::mem::swap(&mut username, &mut self.username);
                        std::mem::swap(&mut password, &mut self.password);
                        KeyAction::Login { username, password }
                    }
                },
            }
        } else {
            match self.mode {
                Mode::EditingUsername => self.username.push(key),
                Mode::EditingPassword => self.password.push(key),
            }
            KeyAction::Continue
        };
        proof {
            assert(self@ =~= old(self)@.after_key(key));
            lemma_after_key_well_formed(old(self)@, key);
        }
        KeyOutcome { restore_background, action }
    }

    /// Records that the login just submitted failed: the prompt goes back
    /// to the username and shows the failure until the next key.
    pub fn login_failed(&mut self)
        ensures
            final(self)@ == old(self)@.after_login_failure(),
    {
        self.mode = Mode::EditingUsername;
        self.had_failure = true;
    }
}

/// Typing a character and then backspace gives back both fields and the
/// field being edited.
pub proof fn backspace_undoes_typing(m: PromptState, key: u8)
    requires
        is_text_key(key),
    ensures
        m.after_key(key).after_key(KEY_BACKSPACE).username == m.username,
        m.after_key(key).after_key(KEY_BACKSPACE).password == m.password,
        m.after_key(key).after_key(KEY_BACKSPACE).mode == m.mode,
{
    assert(m.field().push(key).drop_last() =~= m.field());
}

/// Tab twice comes back to the same field and changes nothing else.
pub proof fn tab_twice_returns(m: PromptState)
    ensures
        m.after_key(KEY_TAB).after_key(KEY_TAB) == (PromptState { had_failure: false, ..m }),
{
}

/// Typing, deleting and clearing change only the field being edited.
pub proof fn editing_keeps_other_field(m: PromptState, key: u8)
    requires
        is_text_key(key) || key == KEY_BACKSPACE || key == KEY_CLEAR_LINE || key == KEY_KILL_LINE,
    ensures
        m.after_key(key).mode == m.mode,
        m.mode == Mode::EditingUsername ==> m.after_key(key).password == m.password,
        m.mode == Mode::EditingPassword ==> m.after_key(key).username == m.username,
        m.key_effect(key) == KeyEffect::Continue,
{
}

/// A login is submitted only by Enter on the password field with a
/// non-empty password; it carries both fields as they were and leaves
/// them empty.
pub proof fn login_submitted_only_with_password(m: PromptState, key: u8)
    ensures
        m.key_effect(key) is Login ==> {
            &&& key == KEY_ENTER
            &&& m.mode == Mode::EditingPassword
            &&& m.password.len() > 0
            &&& m.key_effect(key) == (KeyEffect::Login {
                username: m.username,
                password: m.password,
            })
            &&& m.after_key(key).username.len() == 0
            &&& m.after_key(key).password.len() == 0
        },
{
}

/// Over any run of the prompt, from any state and whatever greetd answers,
/// every login is submitted by Enter on the password field and carries a
/// non-empty password.
pub proof fn every_login_has_password(
    m: PromptState,
    keys: Seq<u8>,
    outcomes: Seq<bool>,
    i: int,
)
    requires
        0 <= i < keys.len(),
    ensures
        ({
            let s = after_turns(m, keys.take(i), outcomes);
            s.key_effect(keys[i]) is Login ==> {
                &&& keys[i] == KEY_ENTER
                &&& s.mode == Mode::EditingPassword
                &&& s.password.len() > 0
            }
        }),
{
    login_submitted_only_with_password(after_turns(m, keys.take(i), outcomes), keys[i]);
}

/// Ctrl-U and Ctrl-K empty the field being edited, in either field, and
/// change neither the other field nor the field being edited.
pub proof fn clearing_empties_edited_field(m: PromptState, key: u8)
    requires
        key == KEY_CLEAR_LINE || key == KEY_KILL_LINE,
    ensures
        m.after_key(key).mode == m.mode,
        m.mode == Mode::EditingUsername ==> m.after_key(key).username.len() == 0
            && m.after_key(key).password == m.password,
        m.mode == Mode::EditingPassword ==> m.after_key(key).password.len() == 0
            && m.after_key(key).username == m.username,
        m.key_effect(key) == KeyEffect::Continue,
{
}

/// Backspace removes the last byte of the field being edited, if it has
/// one, and nothing else; on an empty field it does nothing.
pub proof fn backspace_removes_last_byte(m: PromptState)
    ensures
        m.after_key(KEY_BACKSPACE).mode == m.mode,
        m.mode == Mode::EditingUsername ==> m.after_key(KEY_BACKSPACE).password == m.password
            && m.after_key(KEY_BACKSPACE).username == (if m.username.len() == 0 {
            m.username
        } else {
            m.username.take(m.username.len() - 1)
        }),
        m.mode == Mode::EditingPassword ==> m.after_key(KEY_BACKSPACE).username == m.username
            && m.after_key(KEY_BACKSPACE).password == (if m.password.len() == 0 {
            m.password
        } else {
            m.password.take(m.password.len() - 1)
        }),
        m.key_effect(KEY_BACKSPACE) == KeyEffect::Continue,
{
}

/// A typed character is appended to the field being edited, and nothing
/// else changes.
pub proof fn typing_appends(m: PromptState, key: u8)
    requires
        is_text_key(key),
    ensures
        m.after_key(key).mode == m.mode,
        m.mode == Mode::EditingUsername ==> m.after_key(key).username.len() == m.username.len()
            + 1 && m.after_key(key).username.last() == key && m.after_key(key).username.take(
            m.username.len() as int,
        ) == m.username && m.after_key(key).password == m.password,
        m.mode == Mode::EditingPassword ==> m.after_key(key).password.len() == m.password.len()
            + 1 && m.after_key(key).password.last() == key && m.after_key(key).password.take(
            m.password.len() as int,
        ) == m.password && m.after_key(key).username == m.username,
        m.key_effect(key) == KeyEffect::Continue,
{
    assert(m.username.push(key).take(m.username.len() as int) =~= m.username);
    assert(m.password.push(key).take(m.password.len() as int) =~= m.password);
}

/// Tab changes only which field is edited.
pub proof fn tab_switches_field_only(m: PromptState)
    ensures
        m.after_key(KEY_TAB).mode != m.mode,
        m.after_key(KEY_TAB).username == m.username,
        m.after_key(KEY_TAB).password == m.password,
        m.key_effect(KEY_TAB) == KeyEffect::Continue,
{
}

/// Enter on the username field keeps both fields; it moves on to the
/// password field exactly when the username is not empty.
pub proof fn enter_on_username_moves_on(m: PromptState)
    requires
        m.mode == Mode::EditingUsername,
    ensures
        m.after_key(KEY_ENTER).username == m.username,
        m.after_key(KEY_ENTER).password == m.password,
        m.after_key(KEY_ENTER).mode == Mode::EditingPassword <==> m.username.len() > 0,
        m.key_effect(KEY_ENTER) == KeyEffect::Continue,
{
}

/// Enter on the password field with an empty password empties the
/// username and goes back to it, without a login.
pub proof fn enter_without_password_restarts(m: PromptState)
    requires
        m.mode == Mode::EditingPassword,
        m.password.len() == 0,
    ensures
        m.after_key(KEY_ENTER).mode == Mode::EditingUsername,
        m.after_key(KEY_ENTER).username.len() == 0,
        m.after_key(KEY_ENTER).password.len() == 0,
        m.key_effect(KEY_ENTER) == KeyEffect::Continue,
{
}

/// Enter on the password field with a password submits exactly the two
/// fields as they are, leaves both empty and stays on the password field.
pub proof fn enter_with_password_logs_in(m: PromptState)
    requires
        m.mode == Mode::EditingPassword,
        m.password.len() > 0,
    ensures
        m.key_effect(KEY_ENTER) == (KeyEffect::Login {
            username: m.username,
            password: m.password,
        }),
        m.after_key(KEY_ENTER).mode == Mode::EditingPassword,
        m.after_key(KEY_ENTER).username.len() == 0,
        m.after_key(KEY_ENTER).password.len() == 0,
{
}

/// No key changes the lengths the fields were last drawn with.
pub proof fn keys_keep_drawn_lengths(m: PromptState, key: u8)
    ensures
        m.after_key(key).shown_username_len == m.shown_username_len,
        m.after_key(key).shown_password_len == m.shown_password_len,
{
}

/// Control keys are always taken; a typed character is refused only when
/// the field's text would grow beyond what a `String` holds.
pub proof fn keys_accepted_unless_full(m: PromptState, key: u8)
    ensures
        !is_text_key(key) ==> m.accepts(key),
        key == KEY_CLEAR_LINE || key == KEY_KILL_LINE || key == KEY_INTERRUPT || key
            == KEY_END_OF_FILE || key == KEY_BACKSPACE || key == KEY_TAB || key == KEY_ENTER
            ==> m.accepts(key),
        is_text_key(key) ==> (m.accepts(key) <==> text_len(m.field()) + char_width(key)
            <= isize::MAX),
        is_text_key(key) && text_len(m.field()) + 2 <= isize::MAX ==> m.accepts(key),
{
}

/// A field is wiped before it is drawn again exactly when its text got
/// shorter, by any amount; it is drawn without wiping when it got longer,
/// and not drawn when its length is unchanged.
pub proof fn redraw_wipes_exactly_when_shorter(len: nat, shown: nat)
    ensures
        len < shown ==> field_redraw(len, shown) == Some(true),
        len > shown ==> field_redraw(len, shown) == Some(false),
        len == shown ==> field_redraw(len, shown) is None,
{
}

/// The text of input bytes takes one UTF-8 byte per byte below 0x80 and
/// two per byte above: as many bytes as there are input bytes when all are
/// ASCII, and never fewer than the input bytes nor more than twice them.
pub proof fn text_len_counts_utf8_bytes(s: Seq<u8>)
    ensures
        s.len() <= text_len(s) <= 2 * s.len(),
        (forall|i: int| 0 <= i < s.len() ==> s[i] < 0x80) ==> text_len(s) == s.len(),
        (forall|i: int| 0 <= i < s.len() ==> s[i] >= 0x80) ==> text_len(s) == 2 * s.len(),
    decreases s.len(),
{
    if s.len() > 0 {
        text_len_counts_utf8_bytes(s.drop_last());
    }
}

/// Ctrl-C and Ctrl-D quit and leave both fields empty.
pub proof fn quitting_empties_fields(m: PromptState, key: u8)
    requires
        key == KEY_INTERRUPT || key == KEY_END_OF_FILE,
    ensures
        m.key_effect(key) == KeyEffect::Quit,
        m.after_key(key).username.len() == 0,
        m.after_key(key).password.len() == 0,
        m.after_key(key).mode == m.mode,
{
}

/// After a failed login the prompt is back on the username field, shows
/// the failure, and keeps both fields as they were.
pub proof fn failed_login_returns_to_username(m: PromptState)
    ensures
        m.after_login_failure().mode == Mode::EditingUsername,
        m.after_login_failure().had_failure,
        m.after_login_failure().username == m.username,
        m.after_login_failure().password == m.password,
        m.after_login_failure().shown_username_len == m.shown_username_len,
        m.after_login_failure().shown_password_len == m.shown_password_len,
{
}

/// The colour of a failed login is shown until the next key, whatever it
/// is.
pub proof fn failure_shown_until_next_key(m: PromptState, key: u8)
    ensures
        !m.after_key(key).had_failure,
{
}

/// Deleting from a field that was drawn at its length asks for it to be
/// wiped and drawn again; typing into it asks for it to be drawn again
/// without wiping.
pub proof fn redraw_follows_editing(m: PromptState, key: u8)
    requires
        m.mode == Mode::EditingUsername,
        m.shown_username_len == text_len(m.username),
    ensures
        key == KEY_BACKSPACE && m.username.len() > 0 ==> field_redraw(
            text_len(m.after_key(key).username),
            m.shown_username_len,
        ) == Some(true),
        is_text_key(key) ==> field_redraw(
            text_len(m.after_key(key).username),
            m.shown_username_len,
        ) == Some(false),
{
    lemma_text_len_push(m.username, key);
}

/// Once both fields are drawn at their lengths, nothing asks to be drawn
/// again.
pub proof fn redraws_settle(m: PromptState)
    ensures
        field_redraw(text_len(m.username), text_len(m.username)) is None,
        field_redraw(text_len(m.password), text_len(m.password)) is None,
{
}

} // verus!
