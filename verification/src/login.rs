//! The login page's state: which of the four authentication methods is on screen, which input
//! the caret is in, and what has been typed.
use vstd::prelude::*;
use crate::text_input::TextInput;
use crate::wrap::{wrap_index, wrapped};
use vstd::arithmetic::div_mod::lemma_fundamental_div_mod_converse;

verus! {

/// Which of the page's four authentication methods is on screen.
#[derive(Debug, Clone, Copy, PartialEq, Eq, Structural)]
pub enum LoginMethod {
    Qr,
    Password,
    Sms,
    Sign,
}

/// One input of the form. Two of these are on screen at a time; which two is the method's.
#[derive(Debug, Clone, Copy, PartialEq, Eq, Structural)]
pub enum LoginField {
    Account,
    Password,
    Phone,
    Code,
}

/// The tab's position in the strip, left to right.
pub open spec fn method_index(m: LoginMethod) -> int {
    match m {
        LoginMethod::Qr => 0,
        LoginMethod::Password => 1,
        LoginMethod::Sms => 2,
        LoginMethod::Sign => 3,
    }
}

/// The tab at position `i` of the strip (`0 <= i < 4`).
pub open spec fn method_at(i: int) -> LoginMethod {
    if i == 0 {
        LoginMethod::Qr
    } else if i == 1 {
        LoginMethod::Password
    } else if i == 2 {
        LoginMethod::Sms
    } else {
        LoginMethod::Sign
    }
}

/// The tab `delta` positions away from `m`, wrapping at both ends.
pub open spec fn shifted(m: LoginMethod, delta: int) -> LoginMethod {
    method_at(wrapped(method_index(m), delta, 4))
}

/// Where the caret is among `fields` (a form has at most two), the first when it is in none.
pub open spec fn field_position(fields: Seq<LoginField>, f: LoginField) -> int {
    if fields.len() > 0 && fields[0] == f { 0 } else if fields.len() > 1 && fields[1] == f { 1 } else { 0 }
}

/// The inputs a method's form has, in `Tab` order.
pub open spec fn method_fields(m: LoginMethod) -> Seq<LoginField> {
    match m {
        LoginMethod::Qr | LoginMethod::Sign => Seq::empty(),
        LoginMethod::Password => seq![LoginField::Account, LoginField::Password],
        LoginMethod::Sms => seq![LoginField::Phone, LoginField::Code],
    }
}

impl LoginMethod {
    /// The tab strip, left to right.
    pub const ALL: [LoginMethod; 4] = [LoginMethod::Qr, LoginMethod::Password, LoginMethod::Sms, LoginMethod::Sign];

    /// The tab's own label, short so four of them fit side by side.
    pub fn label(self) -> (r: &'static str)
        ensures
            r@ == match self {
                LoginMethod::Qr => "二维码"@,
                LoginMethod::Password => "密码"@,
                LoginMethod::Sms => "短信"@,
                LoginMethod::Sign => "签到"@,
            },
    {
        match self {
            LoginMethod::Qr => "二维码",
            LoginMethod::Password => "密码",
            LoginMethod::Sms => "短信",
            LoginMethod::Sign => "签到",
        }
    }

    /// The full name of the method, for the line above its form.
    pub fn heading(self) -> (r: &'static str)
        ensures
            r@ == match self {
                LoginMethod::Qr => "二维码登录"@,
                LoginMethod::Password => "账号密码登录"@,
                LoginMethod::Sms => "短信验证码登录"@,
                LoginMethod::Sign => "每日签到"@,
            },
    {
        match self {
            LoginMethod::Qr => "二维码登录",
            LoginMethod::Password => "账号密码登录",
            LoginMethod::Sms => "短信验证码登录",
            LoginMethod::Sign => "每日签到",
        }
    }

    /// The tab's position in the strip.
    pub fn index(self) -> (r: usize)
        ensures
            r == method_index(self),
    {
        match self {
            LoginMethod::Qr => 0,
            LoginMethod::Password => 1,
            LoginMethod::Sms => 2,
            LoginMethod::Sign => 3,
        }
    }

    /// The inputs `Tab` walks through; the QR and check-in methods have no form at all.
    pub fn fields(self) -> (r: &'static [LoginField])
        ensures
            r@ == method_fields(self),
    {
        match self {
            LoginMethod::Qr | LoginMethod::Sign => {
                let r: &'static [LoginField] = &[];
                assert(r@ =~= method_fields(self));
                r
            },
            LoginMethod::Password => {
                let r: &'static [LoginField] = &[LoginField::Account, LoginField::Password];
                assert(r@ =~= method_fields(self));
                r
            },
            LoginMethod::Sms => {
                let r: &'static [LoginField] = &[LoginField::Phone, LoginField::Code];
                assert(r@ =~= method_fields(self));
                r
            },
        }
    }

    fn from_index(i: usize) -> (r: LoginMethod)
        requires
            i < 4,
        ensures
            r == method_at(i as int),
    {
        if i == 0 {
            LoginMethod::Qr
        } else if i == 1 {
            LoginMethod::Password
        } else if i == 2 {
            LoginMethod::Sms
        } else {
            LoginMethod::Sign
        }
    }

    /// The tab `delta` positions away, wrapping at both ends.
    pub fn shift(self, delta: isize) -> (r: LoginMethod)
        ensures
            r == shifted(self, delta as int),
    {
        LoginMethod::from_index(wrap_index(self.index(), delta, 4))
    }
}

impl LoginField {
    /// Whether the value must not be drawn. Only the password box is masked.
    pub fn masked(self) -> (r: bool)
        ensures
            r == (self == LoginField::Password),
    {
        matches!(self, LoginField::Password)
    }
}

/// The login page's state.
pub struct LoginState {
    pub loading: bool,
    pub error: Option<String>,
    pub qr_url: String,
    pub qr_key: String,
    pub qr_status_text: String,
    /// Rendered QR lines keyed by the url they were encoded from, so the encoding only runs when
    /// `qr_url` changes.
    pub qr_cache: Option<(String, Vec<String>)>,
    /// The method tab the box is showing.
    pub method: LoginMethod,
    /// The input the caret is in, among `method.fields()`.
    pub focus: LoginField,
    pub account: TextInput,
    pub password: TextInput,
    pub phone: TextInput,
    pub code: TextInput,
    /// A line for something that went right, drawn above the action row in accent.
    pub notice: Option<String>,
}

impl Default for LoginState {
    /// The QR tab, nothing typed, nothing said.
    fn default() -> (r: Self)
        ensures
            !r.loading,
            r.error is None,
            r.notice is None,
            r.qr_cache is None,
            r.method == LoginMethod::Qr,
            r.focus == LoginField::Account,
            r.account.value@ == Seq::<char>::empty(),
            r.password.value@ == Seq::<char>::empty(),
            r.phone.value@ == Seq::<char>::empty(),
            r.code.value@ == Seq::<char>::empty(),
    {
        LoginState {
            loading: false,
            error: None,
            qr_url: String::new(),
            qr_key: String::new(),
            qr_status_text: String::new(),
            qr_cache: None,
            method: LoginMethod::Qr,
            focus: LoginField::Account,
            account: TextInput::new(),
            password: TextInput::new(),
            phone: TextInput::new(),
            code: TextInput::new(),
            notice: None,
        }
    }
}

impl LoginState {
    /// The input behind `field`.
    pub open spec fn input_of(self, field: LoginField) -> TextInput {
        match field {
            LoginField::Account => self.account,
            LoginField::Password => self.password,
            LoginField::Phone => self.phone,
            LoginField::Code => self.code,
        }
    }

    /// The state with the input behind `field` replaced.
    pub open spec fn with_input(self, field: LoginField, input: TextInput) -> LoginState {
        match field {
            LoginField::Account => LoginState { account: input, ..self },
            LoginField::Password => LoginState { password: input, ..self },
            LoginField::Phone => LoginState { phone: input, ..self },
            LoginField::Code => LoginState { code: input, ..self },
        }
    }

    /// The state `open(method)` leaves: the method, a clean slate, the caret in the first input.
    pub open spec fn opened(self, method: LoginMethod) -> LoginState {
        LoginState {
            method,
            loading: false,
            error: None,
            notice: None,
            focus: if method_fields(method).len() > 0 { method_fields(method)[0] } else { LoginField::Account },
            ..self
        }
    }

    /// Show `method` with a clean slate: the error of an earlier attempt does not greet the next.
    pub fn open(&mut self, method: LoginMethod)
        ensures
            *final(self) == old(self).opened(method),
    {
        self.method = method;
        self.loading = false;
        self.error = None;
        self.notice = None;
        let fields = method.fields();
        self.focus = if fields.len() > 0 { fields[0] } else { LoginField::Account };
    }

    /// `:signin <账号> <密码>`: the password form with both boxes filled, the caret where there
    /// is still something to type.
    pub fn open_password(&mut self, account: &str, password: &str)
        ensures
            final(self).method == LoginMethod::Password,
            final(self).account.value@ == account@,
            final(self).password.value@ == password@,
            final(self).phone == old(self).phone,
            final(self).code == old(self).code,
            final(self).error is None,
            final(self).notice is None,
            !final(self).loading,
            final(self).focus == if account@.len() == 0 { LoginField::Account } else { LoginField::Password },
    {
        self.open(LoginMethod::Password);
        self.fill(LoginField::Account, account);
        self.fill(LoginField::Password, password);
        self.focus = if account.is_empty() { LoginField::Account } else { LoginField::Password };
    }

    /// `:sms <手机号>`: the code form with the number filled, the caret on the number.
    pub fn open_sms(&mut self, phone: &str)
        ensures
            final(self).method == LoginMethod::Sms,
            final(self).phone.value@ == phone@,
            final(self).account == old(self).account,
            final(self).password == old(self).password,
            final(self).code == old(self).code,
            final(self).error is None,
            final(self).notice is None,
            !final(self).loading,
            final(self).focus == LoginField::Phone,
    {
        self.open(LoginMethod::Sms);
        self.fill(LoginField::Phone, phone);
        self.focus = LoginField::Phone;
    }

    /// `:smslogin <手机号> <验证码>`: both boxes filled, ready for `Enter`.
    pub fn open_sms_login(&mut self, phone: &str, code: &str)
        ensures
            final(self).method == LoginMethod::Sms,
            final(self).phone.value@ == phone@,
            final(self).code.value@ == code@,
            final(self).account == old(self).account,
            final(self).password == old(self).password,
            final(self).error is None,
            final(self).notice is None,
            !final(self).loading,
            final(self).focus == LoginField::Code,
    {
        self.open(LoginMethod::Sms);
        self.fill(LoginField::Phone, phone);
        self.fill(LoginField::Code, code);
        self.focus = LoginField::Code;
    }

    /// Move the tab `delta` positions, keeping the form's contents.
    pub fn select_method(&mut self, delta: isize)
        ensures
            *final(self) == old(self).opened(shifted(old(self).method, delta as int)),
    {
        let next = self.method.shift(delta);
        self.open(next);
    }

    /// Move the caret to the input `delta` away in the current method's form, wrapping; nothing
    /// moves on a method without a form.
    pub fn focus_field(&mut self, delta: isize)
        ensures
            method_fields(old(self).method).len() == 0 ==> *final(self) == *old(self),
            method_fields(old(self).method).len() > 0 ==> {
                let fields = method_fields(old(self).method);
                let current = field_position(fields, old(self).focus);
                *final(self) == LoginState { focus: fields[wrapped(current, delta as int, fields.len() as int)], ..*old(self) }
            },
    {
        let fields = self.method.fields();
        if fields.len() == 0 {
            return;
        }
        let current: usize = if fields[0] == self.focus {
            0
        } else if fields.len() > 1 && fields[1] == self.focus {
            1
        } else {
            0
        };
        self.focus = fields[wrap_index(current, delta, fields.len())];
    }

    /// The input behind `field`.
    pub fn input(&self, field: LoginField) -> (r: &TextInput)
        ensures
            *r == self.input_of(field),
    {
        match field {
            LoginField::Account => &self.account,
            LoginField::Password => &self.password,
            LoginField::Phone => &self.phone,
            LoginField::Code => &self.code,
        }
    }

    /// The input behind `field`, to edit.
    pub fn input_mut(&mut self, field: LoginField) -> (r: &mut TextInput)
        ensures
            *r == old(self).input_of(field),
            *final(self) == old(self).with_input(field, *final(r)),
    {
        match field {
            LoginField::Account => &mut self.account,
            LoginField::Password => &mut self.password,
            LoginField::Phone => &mut self.phone,
            LoginField::Code => &mut self.code,
        }
    }

    /// The input the caret is in, or `None` when the method has no form (QR, check-in) or the
    /// caret is not in one of its inputs.
    pub fn focused_input_mut(&mut self) -> (r: Option<&mut TextInput>)
        ensures
            method_fields(old(self).method).contains(old(self).focus) ==> {
                &&& r is Some
                &&& *r->0 == old(self).input_of(old(self).focus)
                &&& *final(self) == old(self).with_input(old(self).focus, *final(r->0))
            },
            !method_fields(old(self).method).contains(old(self).focus) ==> r is None && *final(self) == *old(self),
    {
        let field = self.focus;
        let fields = self.method.fields();
        proof {
            assert(fields@.contains(field) <==> (fields@.len() > 0 && fields@[0] == field) || (fields@.len() > 1 && fields@[1] == field));
        }
        if (fields.len() > 0 && fields[0] == field) || (fields.len() > 1 && fields[1] == field) {
            Some(self.input_mut(field))
        } else {
            None
        }
    }

    /// The value of one input, which is what the requests are built from.
    pub fn value(&self, field: LoginField) -> (r: String)
        ensures
            r@ == self.input_of(field).value@,
    {
        self.input(field).value.clone()
    }

    /// Replace one input's contents, caret at the end.
    pub fn fill(&mut self, field: LoginField, text: &str)
        ensures
            final(self).input_of(field).value@ == text@,
            final(self).input_of(field).caret() == text@.len(),
            *final(self) == old(self).with_input(field, final(self).input_of(field)),
    {
        set_field(self.input_mut(field), text);
    }
}

/// Replace a field's contents, caret at the end: where a value filled from a command (or echoed
/// back from the server) belongs.
pub fn set_field(input: &mut TextInput, text: &str)
    ensures
        final(input).value@ == text@,
        final(input).caret() == text@.len(),
{
    *input = TextInput::typed(text);
}

/// The tab strip wraps in both directions: going once round brings the page back to the tab it
/// started on, and a step back undoes a step forward.
pub proof fn the_tab_strip_wraps(m: LoginMethod, delta: int)
    ensures
        shifted(m, 4) == m,
        shifted(m, -4) == m,
        shifted(shifted(m, delta), -delta) == m,
        shifted(LoginMethod::Qr, -1) == LoginMethod::Sign,
{
    crate::wrap::a_full_turn_is_no_turn(method_index(m), 4);
    crate::wrap::stepping_back_undoes_a_step(method_index(m), delta, 4);
    let i = wrapped(method_index(m), delta, 4);
    assert(method_index(method_at(i)) == i);
    lemma_fundamental_div_mod_converse(-1, 4, -1, 3);
}

/// Filling an input leaves the other three as they were: the commands that prefill a form
/// never touch the boxes they do not name.
pub proof fn filling_one_input_keeps_the_others(s: LoginState, field: LoginField, other: LoginField, input: TextInput)
    requires
        field != other,
    ensures
        s.with_input(field, input).input_of(other) == s.input_of(other),
        s.with_input(field, input).input_of(field) == input,
{
}

/// The button under the form: what ENTER does for the method and the focused box.
pub fn action_label(method: LoginMethod, focus: LoginField) -> (r: &'static str)
    ensures
        r@ == (match (method, focus) {
            (LoginMethod::Qr, _) => "► GENERATE QR CODE"@,
            (LoginMethod::Password, _) => "► LOGIN"@,
            (LoginMethod::Sms, LoginField::Phone) => "► SEND CODE"@,
            (LoginMethod::Sms, _) => "► LOGIN"@,
            (LoginMethod::Sign, _) => "► DAILY SIGN-IN"@,
        }),
{
    match (method, focus) {
        (LoginMethod::Qr, _) => "► GENERATE QR CODE",
        (LoginMethod::Password, _) => "► LOGIN",
        (LoginMethod::Sms, LoginField::Phone) => "► SEND CODE",
        (LoginMethod::Sms, _) => "► LOGIN",
        (LoginMethod::Sign, _) => "► DAILY SIGN-IN",
    }
}

/// The button while the request ENTER started is out.
pub fn loading_label(method: LoginMethod, focus: LoginField) -> (r: &'static str)
    ensures
        r@ == (match (method, focus) {
            (LoginMethod::Qr, _) => " ◌ CREATING QR CODE ..."@,
            (LoginMethod::Sms, LoginField::Phone) => " ◌ SENDING CODE ..."@,
            (LoginMethod::Sms, _) => " ◌ SIGNING IN ..."@,
            (LoginMethod::Password, _) => " ◌ SIGNING IN ..."@,
            (LoginMethod::Sign, _) => " ◌ CHECKING IN ..."@,
        }),
{
    match (method, focus) {
        (LoginMethod::Qr, _) => " ◌ CREATING QR CODE ...",
        (LoginMethod::Sms, LoginField::Phone) => " ◌ SENDING CODE ...",
        (LoginMethod::Sms, _) => " ◌ SIGNING IN ...",
        (LoginMethod::Password, _) => " ◌ SIGNING IN ...",
        (LoginMethod::Sign, _) => " ◌ CHECKING IN ...",
    }
}

/// The keys of the method on screen, short enough for a box half the terminal wide.
pub fn footer_hint(method: LoginMethod, focus: LoginField) -> (r: &'static str)
    ensures
        r@ == (match (method, focus) {
            (LoginMethod::Qr, _) => "ENTER 生成二维码 · ESC 返回"@,
            (LoginMethod::Password, _) => "TAB 切框 · ←→ 切方式 · ENTER 登录"@,
            (LoginMethod::Sms, LoginField::Phone) => "TAB 切框 · ←→ 切方式 · ENTER 发送"@,
            (LoginMethod::Sms, _) => "TAB 切框 · ←→ 切方式 · ENTER 登录"@,
            (LoginMethod::Sign, _) => "←→ 切方式 · ENTER 签到 · ESC 返回"@,
        }),
{
    match (method, focus) {
        (LoginMethod::Qr, _) => "ENTER 生成二维码 · ESC 返回",
        (LoginMethod::Password, _) => "TAB 切框 · ←→ 切方式 · ENTER 登录",
        (LoginMethod::Sms, LoginField::Phone) => "TAB 切框 · ←→ 切方式 · ENTER 发送",
        (LoginMethod::Sms, _) => "TAB 切框 · ←→ 切方式 · ENTER 登录",
        (LoginMethod::Sign, _) => "←→ 切方式 · ENTER 签到 · ESC 返回",
    }
}

/// The rows of the form, label and box, for a method that has one: one row for each of the
/// method's fields, in `Tab` order.
pub fn form_rows(method: LoginMethod) -> (r: Vec<(&'static str, LoginField)>)
    ensures
        r@.len() == method_fields(method).len(),
        forall|i: int| 0 <= i < r@.len() ==> (#[trigger] r@[i]).1 == method_fields(method)[i],
        method is Password ==> r@[0].0@ == "账号"@ && r@[0].1 == LoginField::Account
            && r@[1].0@ == "密码"@ && r@[1].1 == LoginField::Password,
        method is Sms ==> r@[0].0@ == "手机号"@ && r@[0].1 == LoginField::Phone
            && r@[1].0@ == "验证码"@ && r@[1].1 == LoginField::Code,
{
    match method {
        LoginMethod::Password => vec![("账号", LoginField::Account), ("密码", LoginField::Password)],
        LoginMethod::Sms => vec![("手机号", LoginField::Phone), ("验证码", LoginField::Code)],
        LoginMethod::Qr | LoginMethod::Sign => Vec::new(),
    }
}

} // verus!
