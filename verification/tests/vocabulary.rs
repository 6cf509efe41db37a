use newsletter::authentication::{compute_password_hash, AuthError, FALLBACK_PASSWORD_HASH};
use newsletter::error::Error;
use newsletter::protocol::{
    Command, Event, Flash, HashParams, Level, Location, Page, Reply, Response, StatusCode, SubscriberId,
    SubscriptionStatus, UserId,
};
use newsletter::domain::NewSubscriber;
use newsletter::routes::admin::dashboard::get_username;
use newsletter::routes::health_check::health_check;
use newsletter::routes::login::{login_form, login_redirect, LoginError};
use newsletter::routes::subscriptions::{
    insert_subscriber, send_confirmation_email, store_token, FormData,
};
use newsletter::routes::subscriptions_confirm::{confirm_subscriber, get_subscriber_id_from_token};
use newsletter::session_state::{TypedSession, USER_ID_KEY};
use newsletter::utils::{detail_of, e500, plain};

fn ursula() -> NewSubscriber {
    NewSubscriber::try_from(FormData {
        email: "ursula@example.com".to_string(),
        name: "Ursula Le Guin".to_string(),
    })
    .unwrap()
}

#[test]
fn health_check_works() {
    assert_eq!(health_check(), StatusCode::Success);
    assert_eq!(health_check().code(), 200);
}

#[test]
fn status_codes_have_their_numbers() {
    assert_eq!(StatusCode::Success.code(), 200);
    assert_eq!(StatusCode::BadRequest.code(), 400);
    assert_eq!(StatusCode::Unauthorized.code(), 401);
    assert_eq!(StatusCode::InternalServerError.code(), 500);
}

#[test]
fn locations_have_their_paths() {
    assert_eq!(Location::Login.path(), "/login");
    assert_eq!(Location::AdminDashboard.path(), "/admin/dashboard");
    assert_eq!(Location::AdminPassword.path(), "/admin/password");
}

#[test]
fn a_validation_error_is_a_bad_request_with_its_reason() {
    let error = Error::ValidationError("x is not a valid subscriber name.".to_string());
    assert_eq!(error.status_code(), StatusCode::BadRequest);
    assert_eq!(error.message(), "x is not a valid subscriber name.");
    assert_eq!(
        error.into_response(),
        Response {
            reply: Reply::Invalid("x is not a valid subscriber name.".to_string()),
            report: None
        }
    );
}

#[test]
fn a_string_converts_into_a_validation_error() {
    let error: Error = "too long".to_string().into();
    assert_eq!(error, Error::ValidationError("too long".to_string()));
    assert_eq!(Error::from("too long".to_string()), error);
}

#[test]
fn faults_on_the_server_are_opaque_to_the_client() {
    let cases = [
        (
            Error::DatabaseError("pool timed out".to_string()),
            "A database error was encountered: pool timed out",
        ),
        (
            Error::StoreTokenError("pool timed out".to_string()),
            "A database error was encountered while trying to store a subscription token: pool timed out",
        ),
        (
            Error::SendEmailError("timeout".to_string()),
            "An http client error was encountered: timeout",
        ),
    ];
    for (error, message) in cases {
        assert_eq!(error.status_code(), StatusCode::InternalServerError);
        assert_eq!(error.message(), message);
        assert_eq!(
            error.into_response(),
            Response {
                reply: Reply::Status(StatusCode::InternalServerError),
                report: Some(message.to_string())
            }
        );
    }
}

#[test]
fn e500_keeps_the_detail_for_the_log() {
    assert_eq!(
        e500("pool timed out"),
        Response {
            reply: Reply::Status(StatusCode::InternalServerError),
            report: Some("Internal server error: pool timed out".to_string())
        }
    );
}

#[test]
fn a_plain_response_reports_nothing() {
    assert_eq!(
        plain(Reply::Status(StatusCode::Success)),
        Response { reply: Reply::Status(StatusCode::Success), report: None }
    );
}

#[test]
fn the_detail_of_an_event() {
    assert_eq!(detail_of(Event::Failed("pool timed out".to_string())), "pool timed out");
    assert_eq!(detail_of(Event::Done), "unexpected reply");
    assert_eq!(detail_of(Event::Username("admin".to_string())), "unexpected reply");
}

#[test]
fn login_errors_tell_the_client_no_more_than_their_kind() {
    let unknown = LoginError::from_auth(AuthError::InvalidCredentials("Unknown username.".to_string()));
    let wrong = LoginError::from_auth(AuthError::InvalidCredentials("Invalid password.".to_string()));
    assert_eq!(unknown, LoginError::AuthError("Unknown username.".to_string()));
    assert_eq!(unknown.message(), "Authentication failed");
    assert_eq!(wrong.message(), "Authentication failed");
    assert_eq!(unknown.report(), "Authentication failed: Unknown username.");
    assert_eq!(wrong.report(), "Authentication failed: Invalid password.");

    let fault = LoginError::from_auth(AuthError::UnexpectedError("pool timed out".to_string()));
    assert_eq!(fault, LoginError::UnexpectedError("pool timed out".to_string()));
    assert_eq!(fault.message(), "Something went wrong");
    assert_eq!(fault.report(), "Something went wrong: pool timed out");
}

#[test]
fn auth_errors_in_words() {
    assert_eq!(
        AuthError::InvalidCredentials("Unknown username.".to_string()).message(),
        "Invalid credentials."
    );
    assert_eq!(AuthError::UnexpectedError("pool timed out".to_string()).message(), "pool timed out");
}

#[test]
fn login_redirect_goes_back_to_the_login_page() {
    let response = login_redirect(LoginError::AuthError("Invalid password.".to_string()));
    assert_eq!(
        response,
        Response {
            reply: Reply::Redirect {
                to: Location::Login,
                flash: Some(Flash {
                    level: Level::Error,
                    message: "Authentication failed".to_string()
                })
            },
            report: Some("Authentication failed: Invalid password.".to_string()),
        }
    );
}

#[test]
fn a_new_subscriber_is_inserted_pending_confirmation() {
    assert_eq!(
        insert_subscriber(&ursula(), SubscriberId(9)),
        Command::InsertSubscriber {
            id: SubscriberId(9),
            email: "ursula@example.com".to_string(),
            name: "Ursula Le Guin".to_string(),
            status: SubscriptionStatus::PendingConfirmation,
        }
    );
}

#[test]
fn a_generated_identity_is_a_random_uuid() {
    let first = SubscriberId::generate();
    let second = SubscriberId::generate();
    assert_ne!(first, second);
    for id in [first, second] {
        assert_eq!((id.0 >> 76) & 0xF, 4);
        assert_eq!((id.0 >> 62) & 0x3, 2);
    }
}

#[test]
fn the_token_is_stored_for_its_subscriber() {
    assert_eq!(
        store_token(SubscriberId(9), "abcdefghijklmnopqrstuvwxy"),
        Command::StoreToken {
            subscriber_id: SubscriberId(9),
            subscription_token: "abcdefghijklmnopqrstuvwxy".to_string()
        }
    );
}

#[test]
fn the_confirmation_email_holds_the_link_twice() {
    let command = send_confirmation_email(&ursula(), "https://news.example", "TOKEN");
    assert_eq!(
        command,
        Command::SendEmail {
            recipient: "ursula@example.com".to_string(),
            subject: "Welcome!".to_string(),
            html_body: "Welcome to our newsletter!<br />Click <a href=\"https://news.example/subscriptions/confirm?subscription_token=TOKEN\">here</a> to confirm your subscription.".to_string(),
            text_body: "Welcome to our newsletter!\nVisit https://news.example/subscriptions/confirm?subscription_token=TOKEN to confirm your subscription.".to_string(),
        }
    );
}

#[test]
fn the_repository_calls_of_a_confirmation() {
    assert_eq!(
        get_subscriber_id_from_token("TOKEN"),
        Command::ResolveToken { subscription_token: "TOKEN".to_string() }
    );
    assert_eq!(
        confirm_subscriber(SubscriberId(9)),
        Command::ConfirmSubscriber { id: SubscriberId(9) }
    );
    assert_eq!(get_username(UserId(4)), Command::FetchUsername { user_id: UserId(4) });
}

#[test]
fn the_calls_on_a_session() {
    let session = TypedSession;
    assert_eq!(session.renew(), Command::RenewSession);
    assert_eq!(
        session.insert_user_id(UserId(4)),
        Command::InsertSessionUser { user_id: UserId(4) }
    );
    assert_eq!(session.get_user_id(), Command::ReadSessionUser);
    assert_eq!(session.log_out(), Command::DestroySession);
    assert_eq!(USER_ID_KEY, "user_id");
}

#[test]
fn the_login_form_is_shown_to_everyone() {
    assert_eq!(login_form(), Response { reply: Reply::Page(Page::Login), report: None });
}

#[test]
fn a_status_has_the_name_the_repository_keeps() {
    assert_eq!(SubscriptionStatus::PendingConfirmation.as_str(), "pending_confirmation");
    assert_eq!(SubscriptionStatus::Confirmed.as_str(), "confirmed");
}

#[test]
fn new_passwords_are_hashed_at_the_cost_of_the_fallback_hash() {
    assert_eq!(
        compute_password_hash("new".to_string()),
        Command::HashPassword {
            password: "new".to_string(),
            params: HashParams { memory_kib: 15000, iterations: 2, parallelism: 1 },
        }
    );
    assert!(FALLBACK_PASSWORD_HASH.starts_with("$argon2id$v=19$m=15000,t=2,p=1$"));
}
