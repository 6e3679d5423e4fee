use vstd::prelude::*;
use vstd::string::StringExecFns;
use crate::auth::{LoginError, SettingsError, UserRegisterError, UserVerificationError};
use crate::ids::{format_hyphenated, hyphenated_form};
use crate::index::ViewAttachmentError;
use crate::submit::SubmitError;

verus! {

/// The status under which a reply goes out.
#[derive(Debug, Clone, Copy, PartialEq, Eq, Structural)]
pub enum Status {
    Found,
    SeeOther,
    BadRequest,
    Unauthorized,
    Forbidden,
    InternalServerError,
}

/// What a request is answered with: a redirect to a location, or a failure
/// with a message.
#[derive(Debug, Clone, PartialEq, Eq)]
pub enum Reply {
    Redirect { status: Status, location: String },
    Failure { status: Status, message: String },
}

/// What a `Reply` holds.
pub enum ReplyView {
    Redirect { status: Status, location: Seq<char> },
    Failure { status: Status, message: Seq<char> },
}

impl View for Reply {
    type V = ReplyView;

    open spec fn view(&self) -> ReplyView {
        match self {
            Reply::Redirect { status, location } => ReplyView::Redirect {
                status: *status,
                location: location@,
            },
            Reply::Failure { status, message } => ReplyView::Failure {
                status: *status,
                message: message@,
            },
        }
    }
}

/// A redirect with status `Found`.
pub open spec fn found(location: Seq<char>) -> ReplyView {
    ReplyView::Redirect { status: Status::Found, location }
}

/// A failure with status `InternalServerError`.
pub open spec fn internal(message: Seq<char>) -> ReplyView {
    ReplyView::Failure { status: Status::InternalServerError, message }
}

fn redirect(status: Status, location: &str) -> (reply: Reply)
    ensures
        reply@ == (ReplyView::Redirect { status, location: location@ }),
{
    Reply::Redirect { status, location: location.to_owned() }
}

fn failure(status: Status, message: &str) -> (reply: Reply)
    ensures
        reply@ == (ReplyView::Failure { status, message: message@ }),
{
    Reply::Failure { status, message: message.to_owned() }
}

/// The answer to a registration.
pub open spec fn register_reply_view(error: Option<UserRegisterError>) -> ReplyView {
    match error {
        None => found("/confirmação"@),
        Some(UserRegisterError::NicknameInUse) => found("/registrar?erro=apelido"@),
        Some(UserRegisterError::EmailInUse) => found("/registrar?erro=email"@),
        Some(UserRegisterError::PasswordTooShort) => found("/registrar?erro=senha-curta"@),
        Some(UserRegisterError::PasswordWeak) => found("/registrar?erro=senha-fraca"@),
        Some(UserRegisterError::InternalError) => internal(
            "Não foi possível criar sua conta devido a um erro interno."@,
        ),
    }
}

/// Answers a registration: on success the person is sent to the page that
/// tells them to look for the confirmation notice, on a refusal back to the
/// form with the cause.
pub fn register_reply(error: Option<UserRegisterError>) -> (reply: Reply)
    ensures
        reply@ == register_reply_view(error),
{
    match error {
        None => redirect(Status::Found, "/confirmação"),
        Some(UserRegisterError::NicknameInUse) => redirect(Status::Found, "/registrar?erro=apelido"),
        Some(UserRegisterError::EmailInUse) => redirect(Status::Found, "/registrar?erro=email"),
        Some(UserRegisterError::PasswordTooShort) => redirect(
            Status::Found,
            "/registrar?erro=senha-curta",
        ),
        Some(UserRegisterError::PasswordWeak) => redirect(
            Status::Found,
            "/registrar?erro=senha-fraca",
        ),
        Some(UserRegisterError::InternalError) => failure(
            Status::InternalServerError,
            "Não foi possível criar sua conta devido a um erro interno.",
        ),
    }
}

/// The answer to a confirmation.
pub open spec fn confirm_reply_view(error: Option<UserVerificationError>) -> ReplyView {
    match error {
        None => found("/minha-conta"@),
        Some(UserVerificationError::CodeInvalid) => ReplyView::Redirect {
            status: Status::BadRequest,
            location: "/?erro=codigo-invalido"@,
        },
        Some(UserVerificationError::InternalError) => internal(
            "Não foi possível confirmar a sua conta devido a um erro interno."@,
        ),
    }
}

/// Answers a confirmation: on success the person is sent to their account.
pub fn confirm_reply(error: Option<UserVerificationError>) -> (reply: Reply)
    ensures
        reply@ == confirm_reply_view(error),
{
    match error {
        None => redirect(Status::Found, "/minha-conta"),
        Some(UserVerificationError::CodeInvalid) => redirect(
            Status::BadRequest,
            "/?erro=codigo-invalido",
        ),
        Some(UserVerificationError::InternalError) => failure(
            Status::InternalServerError,
            "Não foi possível confirmar a sua conta devido a um erro interno.",
        ),
    }
}

/// The answer to a login. `session_created` says whether a session could be
/// made for the account; it is not looked at where the login failed.
pub open spec fn login_reply_view(error: Option<LoginError>, session_created: bool) -> ReplyView {
    match error {
        None => if session_created {
            found("/minha-conta"@)
        } else {
            internal("Não foi possível criar uma sessão para você"@)
        },
        Some(LoginError::InvalidCredentials) => found("/entrar?erro=credenciais"@),
        Some(LoginError::InternalError) => internal(
            "Não foi possível verificar suas credenciais"@,
        ),
    }
}

/// Answers a login. Wrong nickname and wrong password get the same answer.
pub fn login_reply(error: Option<LoginError>, session_created: bool) -> (reply: Reply)
    ensures
        reply@ == login_reply_view(error, session_created),
{
    match error {
        None => {
            if session_created {
                redirect(Status::Found, "/minha-conta")
            } else {
                failure(Status::InternalServerError, "Não foi possível criar uma sessão para você")
            }
        },
        Some(LoginError::InvalidCredentials) => redirect(Status::Found, "/entrar?erro=credenciais"),
        Some(LoginError::InternalError) => failure(
            Status::InternalServerError,
            "Não foi possível verificar suas credenciais",
        ),
    }
}

/// The answer to a change of settings.
pub open spec fn settings_reply_view(error: Option<SettingsError>) -> ReplyView {
    match error {
        None => found("/configurações"@),
        Some(SettingsError::NotAuthenticated) => found("/entrar"@),
        Some(SettingsError::NicknameInUse) => found("/configurações?erro=apelido-em-uso"@),
        Some(SettingsError::PasswordTooShort) => found("/configurações?erro=senha-curta"@),
        Some(SettingsError::PasswordWeak) => found("/configurações?erro=senha-fraca"@),
        Some(SettingsError::InternalError) => internal(
            "Não foi possível criptografar a sua senha"@,
        ),
    }
}

/// Answers a change of nickname, password or avatar: on success the person
/// is sent back to the settings, without a session to the login.
pub fn settings_reply(error: Option<SettingsError>) -> (reply: Reply)
    ensures
        reply@ == settings_reply_view(error),
{
    match error {
        None => redirect(Status::Found, "/configurações"),
        Some(SettingsError::NotAuthenticated) => redirect(Status::Found, "/entrar"),
        Some(SettingsError::NicknameInUse) => redirect(
            Status::Found,
            "/configurações?erro=apelido-em-uso",
        ),
        Some(SettingsError::PasswordTooShort) => redirect(
            Status::Found,
            "/configurações?erro=senha-curta",
        ),
        Some(SettingsError::PasswordWeak) => redirect(
            Status::Found,
            "/configurações?erro=senha-fraca",
        ),
        Some(SettingsError::InternalError) => failure(
            Status::InternalServerError,
            "Não foi possível criptografar a sua senha",
        ),
    }
}

/// The answer to the deletion of an account: a deletion that went through
/// is told so, one that was refused is answered as any other change of
/// settings that was refused.
pub open spec fn delete_reply_view(error: Option<SettingsError>) -> ReplyView {
    match error {
        None => found("/conta-deletada"@),
        Some(refusal) => settings_reply_view(Some(refusal)),
    }
}

/// Answers the deletion of an account: after a deletion the person is sent
/// to the page that tells them so, without a session to the login.
pub fn delete_reply(error: Option<SettingsError>) -> (reply: Reply)
    ensures
        reply@ == delete_reply_view(error),
{
    match error {
        None => redirect(Status::Found, "/conta-deletada"),
        Some(refusal) => settings_reply(Some(refusal)),
    }
}

/// Answers a logout, whoever asked.
pub fn logout_reply() -> (reply: Reply)
    ensures
        reply@ == found("/"@),
{
    redirect(Status::Found, "/")
}

/// The answer to a submission.
pub open spec fn submit_reply_view(outcome: Result<u128, SubmitError>) -> ReplyView {
    match outcome {
        Ok(listing_id) => ReplyView::Redirect {
            status: Status::SeeOther,
            location: "/item/"@ + hyphenated_form(listing_id),
        },
        Err(SubmitError::Unauthorized) => ReplyView::Failure {
            status: Status::Unauthorized,
            message: "Usuário não autenticado"@,
        },
        Err(SubmitError::Forbidden) => ReplyView::Failure {
            status: Status::Forbidden,
            message: "Usuário não confirmado"@,
        },
        Err(SubmitError::NoImages) => found("/novo?erro=sem-imagem"@),
        Err(SubmitError::InvalidType) => ReplyView::Failure {
            status: Status::BadRequest,
            message: "Tipo de anúncio inválido"@,
        },
        Err(SubmitError::InvalidCampus) => ReplyView::Failure {
            status: Status::BadRequest,
            message: "Campus inválido"@,
        },
        Err(SubmitError::InternalError) => internal("Não foi possível salvar o anúncio"@),
    }
}

/// Answers a submission: on success the person is sent to the new listing,
/// whatever became of the files.
pub fn submit_reply(outcome: Result<u128, SubmitError>) -> (reply: Reply)
    ensures
        reply@ == submit_reply_view(outcome),
{
    match outcome {
        Ok(listing_id) => {
            let mut location = "/item/".to_owned();
            let id = format_hyphenated(listing_id);
            location.append(id.as_str());
            Reply::Redirect { status: Status::SeeOther, location }
        },
        Err(SubmitError::Unauthorized) => failure(Status::Unauthorized, "Usuário não autenticado"),
        Err(SubmitError::Forbidden) => failure(Status::Forbidden, "Usuário não confirmado"),
        Err(SubmitError::NoImages) => redirect(Status::Found, "/novo?erro=sem-imagem"),
        Err(SubmitError::InvalidType) => failure(Status::BadRequest, "Tipo de anúncio inválido"),
        Err(SubmitError::InvalidCampus) => failure(Status::BadRequest, "Campus inválido"),
        Err(SubmitError::InternalError) => failure(
            Status::InternalServerError,
            "Não foi possível salvar o anúncio",
        ),
    }
}

/// The answer to a request to view an attachment, given the signed link
/// that the object store handed out where one was asked for and made.
pub open spec fn view_reply_view(error: Option<ViewAttachmentError>, url: Option<Seq<char>>) -> ReplyView {
    match error {
        Some(ViewAttachmentError::InvalidUser) => ReplyView::Failure {
            status: Status::BadRequest,
            message: "Usuário inválido"@,
        },
        None => match url {
            Some(link) => found(link),
            None => internal("Não foi possível gerar a URL"@),
        },
    }
}

/// Answers a request to view an attachment: the person is sent to the signed
/// link, unless the owner blocks the view or no link could be made.
pub fn view_reply(error: Option<ViewAttachmentError>, url: Option<String>) -> (reply: Reply)
    ensures
        reply@ == view_reply_view(
            error,
            match url {
                Some(link) => Some(link@),
                None => None,
            },
        ),
{
    match error {
        Some(ViewAttachmentError::InvalidUser) => failure(Status::BadRequest, "Usuário inválido"),
        None => match url {
            Some(link) => Reply::Redirect { status: Status::Found, location: link },
            None => failure(Status::InternalServerError, "Não foi possível gerar a URL"),
        },
    }
}

} // verus!
