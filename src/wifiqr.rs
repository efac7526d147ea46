//! Options of the WiFi QR-code card generator.
use vstd::prelude::*;

verus! {

/// The authentication type of a WiFi network.
#[derive(Clone, Copy, PartialEq, Eq, Structural, Debug)]
pub enum AuthType {
    WPA2,
}

/// The name of an authentication type as written in a WiFi QR code.
pub open spec fn auth_name(a: AuthType) -> Seq<char> {
    match a {
        AuthType::WPA2 => "WPA2"@,
    }
}

impl AuthType {
    /// The name of the authentication type.
    pub fn as_str(&self) -> (r: &'static str)
        ensures
            r@ == auth_name(*self),
    {
        match self {
            AuthType::WPA2 => "WPA2",
        }
    }
}

/// Options: the network's SSID, password, authentication type and physical
/// location (empty when none is given).
pub struct WifiQR {
    pub ssid: String,
    pub password: String,
    pub authtype: AuthType,
    pub location: String,
}


/// The LaTeX source of the card, a Tera template over `ssid`, `password`,
/// `authtype` and `location`.
pub const CARD_TEMPLATE: &'static str = r"\documentclass[11pt]{article}
\usepackage[paperwidth=3.5in,paperheight=2in,margin=0.15in]{geometry}
\usepackage{qrcode}
\pagestyle{empty}
\begin{document}
\centering
\qrcode[height=1.2in]{WIFI:T:{{ authtype }};S:{{ ssid }};P:{{ password }};;}\\[0.5em]
\textbf{ {{ ssid }} }\\
{{ location }}
\end{document}";

/// What `tera::Tera::one_off` renders from `template`, with autoescape on,
/// in a context that binds `ssid`, `password`, `authtype` and `location`;
/// nothing when it fails. Applied only to the card template, which reads
/// nothing but those four values.
pub uninterp spec fn tera_rendered(
    template: Seq<char>,
    ssid: Seq<char>,
    password: Seq<char>,
    authtype: Seq<char>,
    location: Seq<char>,
) -> Option<Seq<char>>;

#[verifier::external_type_specification]
#[verifier::external_body]
pub struct ExTeraError(tera::Error);

/// Relies on `tera::Tera::one_off` with autoescape on, after
/// `tera::Context::insert` of the four strings (which cannot fail for
/// strings). Tera registers `get_env`, which reads the process environment,
/// so only a template that calls no such function renders from its inputs
/// alone: the card template, to which this is held.
#[verifier::external_body]
fn render(template: &str, ssid: &str, password: &str, authtype: &str, location: &str) -> (r: Result<String, tera::Error>)
    requires
        template@ == CARD_TEMPLATE@,
    ensures
        r is Ok <==> tera_rendered(template@, ssid@, password@, authtype@, location@) is Some,
        r is Ok ==> r->Ok_0@ == tera_rendered(template@, ssid@, password@, authtype@, location@)->Some_0,
{
    let mut context = tera::Context::new();
    context.insert("password", password);
    context.insert("ssid", ssid);
    context.insert("authtype", authtype);
    context.insert("location", location);
    tera::Tera::one_off(template, &context, true)
}

/// Why the card's source could not be produced.
#[derive(Debug, PartialEq, Eq)]
pub enum CardError {
    /// The template engine rejected the template.
    TemplateFailed,
}

impl WifiQR {
    /// The LaTeX source of the card for these options.
    pub fn card_source(&self) -> (r: Result<String, CardError>)
        ensures
            r is Ok <==> tera_rendered(CARD_TEMPLATE@, self.ssid@, self.password@, auth_name(self.authtype), self.location@) is Some,
            r is Ok ==> r->Ok_0@ == tera_rendered(
                CARD_TEMPLATE@,
                self.ssid@,
                self.password@,
                auth_name(self.authtype),
                self.location@,
            )->Some_0,
    {
        match render(
            CARD_TEMPLATE,
            self.ssid.as_str(),
            self.password.as_str(),
            self.authtype.as_str(),
            self.location.as_str(),
        ) {
            Ok(text) => Ok(text),
            Err(_) => Err(CardError::TemplateFailed),
        }
    }
}

} // verus!
