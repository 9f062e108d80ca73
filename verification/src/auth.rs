//! Authentication: which credentials an account uses, and the session or login they make.

use matrix_sdk::ruma::UserId;
use vstd::prelude::*;

use crate::config::MatrixAccountConfig;
use crate::text::{
    borrowed, first_index, first_index_at, is_alphanumeric, opt_str_view, opt_view, same_text, trim,
    trimmed,
};

verus! {

/// How an account authenticates.
#[derive(Debug, Clone, Copy, PartialEq, Eq, Structural)]
pub enum AuthMode {
    AccessToken,
    Password,
}

/// Why an account cannot be started.
#[derive(Debug, Clone)]
pub enum ChannelError {
    /// The settings do not allow it.
    InvalidInput(String),
    /// Something outside failed while doing what `context` names.
    External { context: String, message: String },
}

/// What a `ChannelError` says.
pub enum ErrorModel {
    InvalidInput(Seq<char>),
    External { context: Seq<char>, message: Seq<char> },
}

impl View for ChannelError {
    type V = ErrorModel;

    open spec fn view(&self) -> ErrorModel {
        match *self {
            ChannelError::InvalidInput(text) => ErrorModel::InvalidInput(text@),
            ChannelError::External { context, message } => ErrorModel::External {
                context: context@,
                message: message@,
            },
        }
    }
}

/// A session to restore.
pub struct RestoredSession {
    pub user_id: String,
    pub device_id: String,
    pub access_token: String,
}

/// A login to send.
pub struct PasswordLogin {
    pub user_id: String,
    pub password: String,
    pub device_id: Option<String>,
    pub device_display_name: Option<String>,
}

/// What authenticating an account comes down to.
pub enum AuthPlan {
    Restore(RestoredSession),
    Login(PasswordLogin),
}

/// A secret that can be used: something is left of it after trimming, and it is not the
/// placeholder that stands in for a secret in output.
pub open spec fn is_usable(secret: Seq<char>, redacted: Seq<char>) -> bool {
    trimmed(secret).len() > 0 && trimmed(secret) != redacted
}

/// How an account authenticates: by its access token, else by its password for a named user.
pub open spec fn auth(config: MatrixAccountConfig, redacted: Seq<char>) -> Result<
    AuthMode,
    ErrorModel,
> {
    if is_usable(config.access_token@, redacted) {
        Ok(AuthMode::AccessToken)
    } else if config.password is None || !is_usable(config.password->0@, redacted) {
        Err(ErrorModel::InvalidInput("either access_token or password is required"@))
    } else if config.user_id is None || config.user_id->0@.len() == 0 {
        Err(ErrorModel::InvalidInput("user_id is required when using password authentication"@))
    } else {
        Ok(AuthMode::Password)
    }
}

/// The result with its error replaced by what the error says.
pub open spec fn modelled<T>(res: Result<T, ChannelError>) -> Result<T, ErrorModel> {
    match res {
        Ok(value) => Ok(value),
        Err(error) => Err(error@),
    }
}

fn invalid_input(text: &str) -> (error: ChannelError)
    ensures
        error@ == ErrorModel::InvalidInput(text@),
{
    ChannelError::InvalidInput(text.to_owned())
}

/// Decides how an account authenticates. `redacted` is the placeholder for a secret that is not
/// shown.
pub fn auth_mode(config: &MatrixAccountConfig, redacted: &str) -> (res: Result<
    AuthMode,
    ChannelError,
>)
    ensures
        modelled(res) == auth(*config, redacted@),
{
    let access_token = trim(config.access_token.as_str());
    if !access_token.is_empty() && !(*access_token == *redacted) {
        return Ok(AuthMode::AccessToken);
    }
    let usable = match &config.password {
        Some(password) => {
            let password = trim(password.as_str());
            !password.is_empty() && !(*password == *redacted)
        },
        None => false,
    };
    if !usable {
        return Err(invalid_input("either access_token or password is required"));
    }
    let named = match &config.user_id {
        Some(user_id) => !user_id.as_str().is_empty(),
        None => false,
    };
    if !named {
        return Err(invalid_input("user_id is required when using password authentication"));
    }
    Ok(AuthMode::Password)
}

// ---- user IDs --------------------------------------------------------------

/// What parsing a text as a Matrix user ID gives: the ID, or what is wrong with the text.
pub uninterp spec fn parsed_user_id(text: Seq<char>) -> Result<Seq<char>, Seq<char>>;

/// A user ID of the plainest form: `@`, a name in letters, digits, `.`, `-` and `_`, a colon, and
/// a host in letters, digits, `.` and `-`; 255 characters at most.
pub open spec fn is_plain_user_id(text: Seq<char>) -> bool {
    let colon = first_index(text, ':');
    &&& 0 < text.len() <= 255
    &&& text[0] == '@'
    &&& colon < text.len() - 1
    &&& forall|i: int|
        0 < i < text.len() && i != colon ==> {
            ||| is_alphanumeric(#[trigger] text[i])
            ||| text[i] == '.'
            ||| text[i] == '-'
            ||| text[i] == '_' && i < colon
        }
}

/// `UserId::parse`, with the ID as text and the error as its message. The parsed ID is the text
/// itself; it starts with `@` and holds a colon. A text of the plainest form parses. Which other
/// texts parse, and what is said of those that do not, is left to the name.
#[verifier::external_body]
fn parse_user_id(text: &str) -> (res: Result<String, String>)
    ensures
        match res {
            Ok(id) => parsed_user_id(text@) == Ok::<Seq<char>, Seq<char>>(id@),
            Err(message) => parsed_user_id(text@) == Err::<Seq<char>, Seq<char>>(message@),
        },
        res matches Ok(id) ==> id@ == text@ && text@.len() > 0 && text@[0] == '@'
            && text@.contains(':'),
        is_plain_user_id(text@) ==> res is Ok,
{
    match UserId::parse(text) {
        Ok(id) => Ok(id.as_str().to_string()),
        Err(error) => Err(error.to_string()),
    }
}

/// The user a session is restored for, given what parsing the configured ID, or the placeholder
/// where none is configured, gave.
pub open spec fn session_user(
    configured: bool,
    parsed: Result<Seq<char>, Seq<char>>,
) -> Result<Seq<char>, ErrorModel> {
    match parsed {
        Ok(id) => Ok(id),
        Err(message) => if configured {
            Err(ErrorModel::InvalidInput("invalid user_id: "@ + message))
        } else {
            Err(
                ErrorModel::External {
                    context: "matrix session placeholder user_id"@,
                    message,
                },
            )
        },
    }
}

/// The text that is parsed for the user of a session.
pub open spec fn session_user_text(configured: Option<Seq<char>>) -> Seq<char> {
    match configured {
        Some(user_id) => user_id,
        None => "@moltis:invalid"@,
    }
}

/// The characters of a result's text, and what its error says.
pub open spec fn text_result(res: Result<String, ChannelError>) -> Result<Seq<char>, ErrorModel> {
    match res {
        Ok(text) => Ok(text@),
        Err(error) => Err(error@),
    }
}

/// Turns what parsing gave into the user of a session, or the error to report.
pub fn session_user_from_parse(configured: bool, parsed: Result<String, String>) -> (res: Result<
    String,
    ChannelError,
>)
    ensures
        text_result(res) == session_user(
            configured,
            match parsed {
                Ok(id) => Ok(id@),
                Err(message) => Err(message@),
            },
        ),
{
    match parsed {
        Ok(id) => Ok(id),
        Err(message) => if configured {
            Err(ChannelError::InvalidInput("invalid user_id: ".to_owned().concat(message.as_str())))
        } else {
            Err(
                ChannelError::External {
                    context: "matrix session placeholder user_id".to_owned(),
                    message,
                },
            )
        },
    }
}

/// The user a session is restored for: the configured ID, which must be valid, or a placeholder
/// until the homeserver has told who the token belongs to.
pub fn restore_session_user_id(configured_user_id: Option<&str>) -> (res: Result<
    String,
    ChannelError,
>)
    ensures
        text_result(res) == session_user(
            configured_user_id is Some,
            parsed_user_id(session_user_text(opt_str_view(configured_user_id))),
        ),
        res matches Ok(id) ==> id@ == session_user_text(opt_str_view(configured_user_id)),
        configured_user_id is None ==> res is Ok,
        configured_user_id matches Some(id) ==> is_plain_user_id(id@) ==> res is Ok,
{
    match configured_user_id {
        Some(user_id) => session_user_from_parse(true, parse_user_id(user_id)),
        None => {
            proof {
                placeholder_user_id_is_plain();
            }
            session_user_from_parse(false, parse_user_id("@moltis:invalid"))
        },
    }
}

proof fn placeholder_user_id_is_plain()
    ensures
        is_plain_user_id("@moltis:invalid"@),
{
    reveal_strlit("@moltis:invalid");
    first_index_at("@moltis:invalid"@, ':', 7);
}

// ---- sessions and logins ---------------------------------------------------

/// The device a session is restored on.
pub open spec fn session_device(config: MatrixAccountConfig, account_id: Seq<char>) -> Seq<char> {
    match config.device_id {
        Some(device_id) => device_id@,
        None => "moltis_"@ + account_id,
    }
}

/// The session that an access token restores.
pub fn restored_session(config: &MatrixAccountConfig, account_id: &str) -> (res: Result<
    RestoredSession,
    ChannelError,
>)
    ensures
        match res {
            Ok(session) => {
                &&& parsed_user_id(session_user_text(opt_view(config.user_id))) == Ok::<
                    _,
                    Seq<char>,
                >(session.user_id@)
                &&& session.user_id@ == session_user_text(opt_view(config.user_id))
                &&& session.device_id@ == session_device(*config, account_id@)
                &&& session.access_token@ == config.access_token@
            },
            Err(error) => session_user(
                config.user_id is Some,
                parsed_user_id(session_user_text(opt_view(config.user_id))),
            ) == Err::<Seq<char>, _>(error@),
        },
        config.user_id is None ==> res is Ok,
        config.user_id matches Some(id) ==> is_plain_user_id(id@) ==> res is Ok,
{
    match restore_session_user_id(borrowed(&config.user_id)) {
        Err(error) => Err(error),
        Ok(user_id) => {
            let device_id = match &config.device_id {
                Some(device_id) => device_id.clone(),
                None => "moltis_".to_owned().concat(account_id),
            };
            Ok(RestoredSession { user_id, device_id, access_token: config.access_token.clone() })
        },
    }
}

/// The text, where there is one with anything in it.
pub open spec fn non_empty(text: Option<String>) -> Option<Seq<char>> {
    match text {
        Some(text) => if text@.len() > 0 {
            Some(text@)
        } else {
            None
        },
        None => None,
    }
}

fn copied_if_any(text: &Option<String>) -> (res: Option<String>)
    ensures
        opt_view(res) == non_empty(*text),
{
    match text {
        Some(text) => if text.as_str().is_empty() {
            None
        } else {
            Some(text.clone())
        },
        None => None,
    }
}

/// The login that a password makes: it needs a user and a password, and names the device where
/// one is configured.
pub fn password_login(config: &MatrixAccountConfig) -> (res: Result<PasswordLogin, ChannelError>)
    ensures
        match res {
            Ok(login) => {
                &&& non_empty(config.user_id) == Some(login.user_id@)
                &&& opt_view(config.password) == Some(login.password@)
                &&& opt_view(login.device_id) == non_empty(config.device_id)
                &&& opt_view(login.device_display_name) == non_empty(config.device_display_name)
            },
            Err(error) => if non_empty(config.user_id) is None {
                error@ == ErrorModel::InvalidInput(
                    "user_id is required when using password authentication"@,
                )
            } else {
                &&& config.password is None
                &&& error@ == ErrorModel::InvalidInput("password is required"@)
            },
        },
{
    let user_id = match copied_if_any(&config.user_id) {
        Some(user_id) => user_id,
        None => {
            return Err(invalid_input("user_id is required when using password authentication"));
        },
    };
    let password = match &config.password {
        Some(password) => password.clone(),
        None => {
            return Err(invalid_input("password is required"));
        },
    };
    Ok(
        PasswordLogin {
            user_id,
            password,
            device_id: copied_if_any(&config.device_id),
            device_display_name: copied_if_any(&config.device_display_name),
        },
    )
}

/// Decides how an account authenticates and prepares it: a session to restore, or a login.
pub fn authentication_plan(config: &MatrixAccountConfig, account_id: &str, redacted: &str) -> (res:
    Result<AuthPlan, ChannelError>)
    ensures
        match auth(*config, redacted@) {
            Err(fault) => res matches Err(error) && error@ == fault,
            Ok(AuthMode::Password) => res matches Ok(AuthPlan::Login(login)) && {
                &&& Some(login.user_id@) == opt_view(config.user_id)
                &&& Some(login.password@) == opt_view(config.password)
                &&& opt_view(login.device_id) == non_empty(config.device_id)
                &&& opt_view(login.device_display_name) == non_empty(config.device_display_name)
            },
            Ok(AuthMode::AccessToken) => match session_user(
                config.user_id is Some,
                parsed_user_id(session_user_text(opt_view(config.user_id))),
            ) {
                Err(fault) => res matches Err(error) && error@ == fault,
                Ok(user_id) => res matches Ok(AuthPlan::Restore(session)) && {
                    &&& session.user_id@ == user_id
                    &&& user_id == session_user_text(opt_view(config.user_id))
                    &&& session.device_id@ == session_device(*config, account_id@)
                    &&& session.access_token@ == config.access_token@
                },
            },
        },
        auth(*config, redacted@) == Ok::<_, ErrorModel>(AuthMode::AccessToken) && config.user_id
            is None ==> res is Ok,
{
    match auth_mode(config, redacted) {
        Err(error) => Err(error),
        Ok(AuthMode::AccessToken) => match restored_session(config, account_id) {
            Ok(session) => Ok(AuthPlan::Restore(session)),
            Err(error) => Err(error),
        },
        Ok(AuthMode::Password) => match password_login(config) {
            Ok(login) => Ok(AuthPlan::Login(login)),
            Err(error) => Err(error),
        },
    }
}

// ---- laws ------------------------------------------------------------------

/// A usable access token is preferred, whatever else is configured.
pub proof fn access_token_is_preferred(config: MatrixAccountConfig, redacted: Seq<char>)
    requires
        is_usable(config.access_token@, redacted),
    ensures
        auth(config, redacted) == Ok::<_, ErrorModel>(AuthMode::AccessToken),
{
}

/// The credential that is chosen is neither blank nor the placeholder for a hidden secret.
pub proof fn chosen_credential_is_usable(config: MatrixAccountConfig, redacted: Seq<char>)
    ensures
        auth(config, redacted) == Ok::<_, ErrorModel>(AuthMode::AccessToken) ==> is_usable(
            config.access_token@,
            redacted,
        ),
        auth(config, redacted) == Ok::<_, ErrorModel>(AuthMode::Password) ==> config.password
            is Some && is_usable(config.password->0@, redacted),
{
}

/// An account that authenticates by password has all that the login needs.
pub proof fn password_mode_can_log_in(config: MatrixAccountConfig, redacted: Seq<char>)
    requires
        auth(config, redacted) == Ok::<_, ErrorModel>(AuthMode::Password),
    ensures
        non_empty(config.user_id) is Some,
        config.password is Some,
{
}

/// Authentication fails exactly when neither credential can be used: there is no usable token,
/// and no usable password with a user to go with it.
pub proof fn authentication_needs_a_token_or_a_named_password(
    config: MatrixAccountConfig,
    redacted: Seq<char>,
)
    ensures
        auth(config, redacted) is Err <==> {
            &&& !is_usable(config.access_token@, redacted)
            &&& {
                ||| config.password is None
                ||| !is_usable(config.password->0@, redacted)
                ||| non_empty(config.user_id) is None
            }
        },
{
}

/// A secret counts where, without the white space around it, something is left of it that is not
/// the placeholder. A token that counts is used; else a password that counts, for a user that is
/// named; and what is missing is named where neither can be used.
pub proof fn credentials_are_chosen_in_order(
    config: &MatrixAccountConfig,
    redacted: &str,
    token: &str,
    token_text: &str,
    password: &str,
    password_text: &str,
    res: Result<AuthMode, ChannelError>,
)
    requires
        call_ensures(auth_mode, (config, redacted), res),
        token@ == config.access_token@,
        call_ensures(trim, (token,), token_text),
        password@ == match config.password {
            Some(secret) => secret@,
            None => Seq::empty(),
        },
        call_ensures(trim, (password,), password_text),
    ensures
        ({
            let has_token = token_text@.len() > 0 && token_text@ != redacted@;
            let has_password = config.password is Some && password_text@.len() > 0
                && password_text@ != redacted@;
            let has_user = config.user_id matches Some(user) && user@.len() > 0;
            &&& has_token ==> (res matches Ok(mode) && mode == AuthMode::AccessToken)
            &&& !has_token && has_password && has_user ==> (res matches Ok(mode) && mode
                == AuthMode::Password)
            &&& !has_token && !has_password ==> (res matches Err(ChannelError::InvalidInput(text))
                && text@ == "either access_token or password is required"@)
            &&& !has_token && has_password && !has_user ==> (res matches Err(
                ChannelError::InvalidInput(text),
            ) && text@ == "user_id is required when using password authentication"@)
        }),
{
}

/// The user of a session is the configured one, as it is written, where it parses, and a fixed
/// placeholder where none is configured; what is wrong with one that does not parse is reported.
pub proof fn sessions_are_for_the_configured_user(
    configured: Option<&str>,
    parsed: Result<String, String>,
    from_parse: Result<String, ChannelError>,
    res: Result<String, ChannelError>,
)
    requires
        call_ensures(session_user_from_parse, (configured is Some, parsed), from_parse),
        call_ensures(restore_session_user_id, (configured,), res),
    ensures
        parsed matches Ok(id) ==> (from_parse matches Ok(user) && user@ == id@),
        parsed matches Err(message) ==> match configured {
            Some(_) => from_parse matches Err(ChannelError::InvalidInput(text)) && text@
                == "invalid user_id: "@ + message@,
            None => from_parse matches Err(
                ChannelError::External { context, message: same },
            ) && context@ == "matrix session placeholder user_id"@ && same@ == message@,
        },
        configured is None ==> (res matches Ok(user) && user@ == "@moltis:invalid"@),
        configured matches Some(id) ==> match res {
            Ok(user) => user@ == id@,
            Err(ChannelError::InvalidInput(_)) => true,
            Err(_) => false,
        },
{
}

/// A configured user ID is accepted exactly where it parses as it is written; else it is reported
/// with what is wrong with it.
pub proof fn configured_users_are_parsed_as_written(
    id: &str,
    res: Result<String, ChannelError>,
)
    requires
        call_ensures(restore_session_user_id, (Some(id),), res),
    ensures
        parsed_user_id(id@) is Ok ==> (res matches Ok(user) && user@ == id@),
        parsed_user_id(id@) matches Err(message) ==> (res matches Err(
            ChannelError::InvalidInput(text),
        ) && text@ == "invalid user_id: "@ + message),
        is_plain_user_id(id@) ==> res is Ok,
{
}

/// A session carries the configured token as it is, the configured device or one named after the
/// account, and the user that the configured ID gives; it fails as that user fails.
pub proof fn sessions_carry_what_is_configured(
    config: &MatrixAccountConfig,
    account_id: &str,
    configured: Option<&str>,
    user: Result<String, ChannelError>,
    res: Result<RestoredSession, ChannelError>,
)
    requires
        call_ensures(restored_session, (config, account_id), res),
        match configured {
            Some(id) => config.user_id is Some && id@ == config.user_id->0@,
            None => config.user_id is None,
        },
        call_ensures(restore_session_user_id, (configured,), user),
    ensures
        user matches Ok(id) ==> (res matches Ok(session) && {
            &&& session.user_id@ == id@
            &&& session.access_token@ == config.access_token@
            &&& match config.device_id {
                Some(device) => session.device_id@ == device@,
                None => session.device_id@ == "moltis_"@ + account_id@,
            }
        }),
        user matches Err(fault) ==> (res matches Err(error) && error@ == fault@),
{
}

/// A login carries the configured user and password as they are, and names the device by what is
/// configured of it; an empty text counts as none. Without a user, or a password, it fails.
pub proof fn logins_carry_what_is_configured(
    config: &MatrixAccountConfig,
    res: Result<PasswordLogin, ChannelError>,
)
    requires
        call_ensures(password_login, (config,), res),
    ensures
        config.user_id is None || config.user_id->0@.len() == 0 ==> (res matches Err(
            ChannelError::InvalidInput(text),
        ) && text@ == "user_id is required when using password authentication"@),
        config.user_id is Some && config.user_id->0@.len() > 0 && config.password is None ==> (
        res matches Err(ChannelError::InvalidInput(text)) && text@ == "password is required"@),
        config.user_id is Some && config.user_id->0@.len() > 0 && config.password is Some ==> (
        res matches Ok(login) && {
            &&& login.user_id@ == config.user_id->0@
            &&& login.password@ == config.password->0@
            &&& config.device_id is Some && config.device_id->0@.len() > 0 ==> same_text(
                login.device_id,
                config.device_id,
            )
            &&& config.device_id is None || config.device_id->0@.len() == 0
                ==> login.device_id is None
            &&& config.device_display_name is Some && config.device_display_name->0@.len() > 0 ==> same_text(
                login.device_display_name,
                config.device_display_name,
            )
            &&& config.device_display_name is None || config.device_display_name->0@.len() == 0
                ==> login.device_display_name is None
        }),
{
}

/// What is prepared is what the chosen credential makes: the session for a token, the login for a
/// password; where none can be chosen, or the session fails, the reason is passed on.
pub proof fn plans_are_made_of_the_chosen_credential(
    config: &MatrixAccountConfig,
    account_id: &str,
    redacted: &str,
    mode: Result<AuthMode, ChannelError>,
    session: Result<RestoredSession, ChannelError>,
    login: Result<PasswordLogin, ChannelError>,
    res: Result<AuthPlan, ChannelError>,
)
    requires
        call_ensures(authentication_plan, (config, account_id, redacted), res),
        call_ensures(auth_mode, (config, redacted), mode),
        call_ensures(restored_session, (config, account_id), session),
        call_ensures(password_login, (config,), login),
    ensures
        mode matches Err(fault) ==> (res matches Err(error) && error@ == fault@),
        mode matches Ok(AuthMode::AccessToken) ==> match session {
            Ok(made) => res matches Ok(AuthPlan::Restore(prepared)) && {
                &&& prepared.user_id@ == made.user_id@
                &&& prepared.device_id@ == made.device_id@
                &&& prepared.access_token@ == made.access_token@
            },
            Err(fault) => res matches Err(error) && error@ == fault@,
        },
        mode matches Ok(AuthMode::Password) ==> (login matches Ok(made) && (res matches Ok(
            AuthPlan::Login(prepared),
        ) && {
            &&& prepared.user_id@ == made.user_id@
            &&& prepared.password@ == made.password@
            &&& same_text(prepared.device_id, made.device_id)
            &&& same_text(prepared.device_display_name, made.device_display_name)
        })),
{
}

} // verus!
