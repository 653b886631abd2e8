//! Error notifications: a bounded, newest-first list of problems, with
//! short-lived toast visibility driven by the wall clock.

use vstd::prelude::*;
use crate::clock::now_unix_millis;
use crate::i18n::Language;

verus! {

/// At most this many notifications are kept.
pub const MAX_NOTIFICATIONS: usize = 10;

/// How long a notification stays visible as a toast, in milliseconds.
pub const TOAST_DURATION_MS: i64 = 5000;

/// Severity of a notification.
#[derive(Debug, Clone, Copy, PartialEq, Eq, Structural)]
pub enum ErrorSeverity {
    Info,
    Warning,
    Error,
}

/// Icon text for a severity.
pub open spec fn spec_severity_icon(s: ErrorSeverity) -> Seq<char> {
    match s {
        ErrorSeverity::Info => "ℹ️"@,
        ErrorSeverity::Warning => "⚠️"@,
        ErrorSeverity::Error => "❌"@,
    }
}

impl ErrorSeverity {
    /// Icon shown beside the message.
    pub fn icon(&self) -> (r: &'static str)
        ensures
            r@ == spec_severity_icon(*self),
    {
        match self {
            ErrorSeverity::Info => "ℹ️",
            ErrorSeverity::Warning => "⚠️",
            ErrorSeverity::Error => "❌",
        }
    }
}

/// An error notification.
#[derive(Debug, Clone)]
pub struct ErrorNotification {
    /// The message shown.
    pub message: String,
    /// Its severity.
    pub severity: ErrorSeverity,
    /// When it was raised, milliseconds since the Unix epoch.
    pub created_at_ms: i64,
    /// Optional longer explanation.
    pub details: Option<String>,
}

/// Whether a notification raised at `created_at_ms` still shows as a
/// toast at `now_ms`.
pub open spec fn spec_toast_active(created_at_ms: i64, now_ms: i64) -> bool {
    now_ms - created_at_ms < TOAST_DURATION_MS
}

impl ErrorNotification {
    /// A notification raised now, without details.
    pub fn new(message: String, severity: ErrorSeverity) -> (r: Self)
        ensures
            r.message == message,
            r.severity == severity,
            r.details is None,
    {
        Self { message, severity, created_at_ms: now_unix_millis(), details: None }
    }

    /// The notification with an explanation attached.
    pub fn with_details(self, details: String) -> (r: Self)
        ensures
            r.message == self.message,
            r.severity == self.severity,
            r.created_at_ms == self.created_at_ms,
            r.details == Some(details),
    {
        Self { details: Some(details), ..self }
    }

    /// Whether the notification still shows as a toast at the given
    /// clock reading.
    pub fn toast_active_at(&self, now_ms: i64) -> (r: bool)
        ensures
            r == spec_toast_active(self.created_at_ms, now_ms),
    {
        (now_ms as i128) - (self.created_at_ms as i128) < TOAST_DURATION_MS as i128
    }

    /// Whether the notification still shows as a toast now.  The clock
    /// reading is not knowable here, so nothing is promised of the
    /// answer; `toast_active_at` carries the exact contract for a given
    /// reading.
    pub fn is_toast_active(&self) -> bool {
        let now_ms = now_unix_millis();
        self.toast_active_at(now_ms)
    }
}

/// The status-code names of the reference table, in order; the same
/// column in every language.
pub open spec fn spec_common_error_codes() -> Seq<Seq<char>> {
    seq![
        "BadCertificateInvalid"@,
        "BadCertificateHostNameInvalid"@,
        "BadCertificateUntrusted"@,
        "BadSecurityModeRejected"@,
        "BadIdentityTokenRejected"@,
        "BadUserAccessDenied"@,
        "BadConnectionClosed"@,
        "BadTimeout"@,
        "BadNotConnected"@,
        "BadServiceUnsupported"@,
    ]
}

/// Reference table of common protocol errors: code, short description,
/// suggested remedy, in the given language.  The code column is the
/// same in every language, and no string is empty.
pub fn get_common_errors(lang: Language) -> (r: Vec<(
    &'static str,
    &'static str,
    &'static str,
)>)
    ensures
        r@.len() == 10,
        forall|i: int| 0 <= i < 10 ==> (#[trigger] r@[i]).0@ == spec_common_error_codes()[i],
        forall|i: int|
            0 <= i < 10 ==> (#[trigger] r@[i]).1@.len() > 0 && r@[i].2@.len() > 0,
{
    let mut v: Vec<(&'static str, &'static str, &'static str)> = Vec::new();
    match lang {
        Language::English => {
            v.push(("BadCertificateInvalid", "Certificate is invalid", "The server rejected your client certificate. Try regenerating it."));
            v.push(("BadCertificateHostNameInvalid", "Certificate hostname mismatch", "The certificate hostname doesn't match the server. Check your endpoint URL."));
            v.push(("BadCertificateUntrusted", "Certificate not trusted", "The server certificate is not trusted. Add it to your trusted certificates."));
            v.push(("BadSecurityModeRejected", "Security mode rejected", "The server doesn't support this security mode. Try a different security policy."));
            v.push(("BadIdentityTokenRejected", "Authentication failed", "Username/password rejected. Check your credentials."));
            v.push(("BadUserAccessDenied", "Access denied", "Your user account doesn't have permission to access this resource."));
            v.push(("BadConnectionClosed", "Connection closed", "The server closed the connection. It may have restarted or timed out."));
            v.push(("BadTimeout", "Timeout", "The operation took too long. Check network connectivity."));
            v.push(("BadNotConnected", "Not connected", "No active connection to the server."));
            v.push(("BadServiceUnsupported", "Service not supported", "The server doesn't support this operation."));
            proof {
                reveal_strlit("Certificate is invalid");
                reveal_strlit("The server rejected your client certificate. Try regenerating it.");
                reveal_strlit("Certificate hostname mismatch");
                reveal_strlit("The certificate hostname doesn't match the server. Check your endpoint URL.");
                reveal_strlit("Certificate not trusted");
                reveal_strlit("The server certificate is not trusted. Add it to your trusted certificates.");
                reveal_strlit("Security mode rejected");
                reveal_strlit("The server doesn't support this security mode. Try a different security policy.");
                reveal_strlit("Authentication failed");
                reveal_strlit("Username/password rejected. Check your credentials.");
                reveal_strlit("Access denied");
                reveal_strlit("Your user account doesn't have permission to access this resource.");
                reveal_strlit("Connection closed");
                reveal_strlit("The server closed the connection. It may have restarted or timed out.");
                reveal_strlit("Timeout");
                reveal_strlit("The operation took too long. Check network connectivity.");
                reveal_strlit("Not connected");
                reveal_strlit("No active connection to the server.");
                reveal_strlit("Service not supported");
                reveal_strlit("The server doesn't support this operation.");
            }
        },
        Language::Spanish => {
            v.push(("BadCertificateInvalid", "Certificado inválido", "El servidor rechazó tu certificado de cliente. Intenta regenerarlo."));
            v.push(("BadCertificateHostNameInvalid", "Nombre de host no coincide", "El nombre de host del certificado no coincide con el servidor."));
            v.push(("BadCertificateUntrusted", "Certificado no confiable", "El certificado del servidor no es confiable. Agrégalo a certificados confiables."));
            v.push(("BadSecurityModeRejected", "Modo de seguridad rechazado", "El servidor no soporta este modo de seguridad. Prueba otra política."));
            v.push(("BadIdentityTokenRejected", "Autenticación fallida", "Usuario/contraseña rechazados. Verifica tus credenciales."));
            v.push(("BadUserAccessDenied", "Acceso denegado", "Tu cuenta no tiene permiso para acceder a este recurso."));
            v.push(("BadConnectionClosed", "Conexión cerrada", "El servidor cerró la conexión. Puede haberse reiniciado."));
            v.push(("BadTimeout", "Tiempo agotado", "La operación tardó demasiado. Verifica la conectividad de red."));
            v.push(("BadNotConnected", "No conectado", "No hay conexión activa al servidor."));
            v.push(("BadServiceUnsupported", "Servicio no soportado", "El servidor no soporta esta operación."));
            proof {
                reveal_strlit("Certificado inválido");
                reveal_strlit("El servidor rechazó tu certificado de cliente. Intenta regenerarlo.");
                reveal_strlit("Nombre de host no coincide");
                reveal_strlit("El nombre de host del certificado no coincide con el servidor.");
                reveal_strlit("Certificado no confiable");
                reveal_strlit("El certificado del servidor no es confiable. Agrégalo a certificados confiables.");
                reveal_strlit("Modo de seguridad rechazado");
                reveal_strlit("El servidor no soporta este modo de seguridad. Prueba otra política.");
                reveal_strlit("Autenticación fallida");
                reveal_strlit("Usuario/contraseña rechazados. Verifica tus credenciales.");
                reveal_strlit("Acceso denegado");
                reveal_strlit("Tu cuenta no tiene permiso para acceder a este recurso.");
                reveal_strlit("Conexión cerrada");
                reveal_strlit("El servidor cerró la conexión. Puede haberse reiniciado.");
                reveal_strlit("Tiempo agotado");
                reveal_strlit("La operación tardó demasiado. Verifica la conectividad de red.");
                reveal_strlit("No conectado");
                reveal_strlit("No hay conexión activa al servidor.");
                reveal_strlit("Servicio no soportado");
                reveal_strlit("El servidor no soporta esta operación.");
            }
        },
    }
    v
}

/// The bounded notification list, newest first.
#[derive(Debug)]
pub struct ErrorPanel {
    /// Notifications, newest at the front; at most `MAX_NOTIFICATIONS`.
    pub notifications: std::collections::VecDeque<ErrorNotification>,
    /// Whether the full panel is open.
    pub show_panel: bool,
    /// Whether the common-error reference is shown.
    pub show_reference: bool,
}

impl ErrorPanel {
    /// The boundedness invariant.
    pub open spec fn wf(&self) -> bool {
        self.notifications@.len() <= MAX_NOTIFICATIONS
    }

    /// An empty panel.
    pub fn new() -> (r: Self)
        ensures
            r.notifications@.len() == 0,
            !r.show_panel,
            !r.show_reference,
            r.wf(),
    {
        Self {
            notifications: std::collections::VecDeque::new(),
            show_panel: false,
            show_reference: false,
        }
    }

    /// Add a notification at the front; the oldest beyond the bound is
    /// dropped.
    pub fn add_error(&mut self, message: String, severity: ErrorSeverity)
        requires
            old(self).wf(),
        ensures
            final(self).wf(),
            final(self).notifications@.len() > 0,
            final(self).notifications@[0].message == message,
            final(self).notifications@[0].severity == severity,
            final(self).notifications@[0].details is None,
            ({
                let kept = final(self).notifications@.len() - 1;
                &&& final(self).notifications@.len() == (if old(self).notifications@.len()
                    < MAX_NOTIFICATIONS {
                    old(self).notifications@.len() as int + 1
                } else {
                    MAX_NOTIFICATIONS as int
                })
                &&& final(self).notifications@.subrange(
                    1,
                    final(self).notifications@.len() as int,
                ) == old(self).notifications@.subrange(0, kept)
            }),
    {
        let notification = ErrorNotification::new(message, severity);
        self.push_bounded(notification);
    }

    /// Add a notification with details at the front, bounded the same
    /// way.
    pub fn add_error_with_details(
        &mut self,
        message: String,
        details: String,
        severity: ErrorSeverity,
    )
        requires
            old(self).wf(),
        ensures
            final(self).wf(),
            final(self).notifications@.len() > 0,
            final(self).notifications@[0].message == message,
            final(self).notifications@[0].severity == severity,
            final(self).notifications@[0].details == Some(details),
            final(self).notifications@.len() <= old(self).notifications@.len() + 1,
    {
        let notification = ErrorNotification::new(message, severity).with_details(details);
        self.push_bounded(notification);
    }

    fn push_bounded(&mut self, notification: ErrorNotification)
        requires
            old(self).wf(),
        ensures
            final(self).wf(),
            final(self).notifications@.len() > 0,
            final(self).notifications@[0] == notification,
            ({
                let kept = final(self).notifications@.len() - 1;
                &&& final(self).notifications@.len() == (if old(self).notifications@.len()
                    < MAX_NOTIFICATIONS {
                    old(self).notifications@.len() as int + 1
                } else {
                    MAX_NOTIFICATIONS as int
                })
                &&& final(self).notifications@.subrange(
                    1,
                    final(self).notifications@.len() as int,
                ) == old(self).notifications@.subrange(0, kept)
            }),
            final(self).show_panel == old(self).show_panel,
            final(self).show_reference == old(self).show_reference,
    {
        self.notifications.push_front(notification);
        if self.notifications.len() > MAX_NOTIFICATIONS {
            self.notifications.pop_back();
            proof {
                assert(self.notifications@.subrange(1, self.notifications@.len() as int)
                    =~= old(self).notifications@.subrange(
                    0,
                    self.notifications@.len() - 1,
                ));
            }
        } else {
            proof {
                assert(self.notifications@.subrange(1, self.notifications@.len() as int)
                    =~= old(self).notifications@.subrange(
                    0,
                    self.notifications@.len() - 1,
                ));
            }
        }
    }

    /// Drop every notification.
    pub fn clear(&mut self)
        ensures
            final(self).notifications@.len() == 0,
            final(self).wf(),
    {
        self.notifications.clear();
    }

    /// Whether any notification is toast-active at the given reading.
    pub fn any_toast_active_at(&self, now_ms: i64) -> (r: bool)
        ensures
            r == exists|i: int|
                0 <= i < self.notifications@.len() && spec_toast_active(
                    (#[trigger] self.notifications@[i]).created_at_ms,
                    now_ms,
                ),
    {
        let n = self.notifications.len();
        let mut i: usize = 0;
        while i < n
            invariant
                0 <= i <= n,
                n == self.notifications@.len(),
                forall|j: int|
                    0 <= j < i ==> !spec_toast_active(
                        (#[trigger] self.notifications@[j]).created_at_ms,
                        now_ms,
                    ),
            decreases n - i,
        {
            if self.notifications[i].toast_active_at(now_ms) {
                return true;
            }
            i += 1;
        }
        false
    }

    /// Whether any notification still shows as a toast now.  A positive
    /// answer needs at least one notification; beyond that the clock
    /// reading is not knowable here, and `any_toast_active_at` carries
    /// the exact contract for a given reading.
    pub fn has_active_toasts(&self) -> (r: bool)
        ensures
            r ==> self.notifications@.len() > 0,
    {
        let now_ms = now_unix_millis();
        self.any_toast_active_at(now_ms)
    }
}

impl Default for ErrorPanel {
    /// An empty panel.
    fn default() -> (r: Self)
        ensures
            r.notifications@.len() == 0,
            r.wf(),
    {
        Self::new()
    }
}

} // verus!
