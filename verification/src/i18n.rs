//! Localized string lookup for the user interface.
//!
//! The tables below are the specification of this module: each key names one
//! piece of interface text, and `t` selects the wording for a language.

use vstd::prelude::*;

verus! {

/// Interface language.
#[derive(Debug, Clone, Copy, PartialEq, Eq, Structural)]
pub enum Language {
    English,
    Spanish,
}

impl Default for Language {
    /// English is the out-of-the-box language.
    fn default() -> (r: Self)
        ensures
            r == Language::English,
    {
        Language::English
    }
}

/// Keys for every localized interface string.
#[derive(Debug, Clone, Copy, PartialEq, Eq, Structural)]
pub enum T {
    About,
    AboutAuthor,
    AboutCompany,
    AboutTitle,
    AboutVersion,
    AboutYear,
    Actions,
    Anonymous,
    AuthRequired,
    Cancel,
    CancelTask,
    Certificates,
    Checking,
    ClearAll,
    ClientCertificate,
    Close,
    CommonErrors,
    Configuration,
    Connect,
    ConnectStep1,
    ConnectStep2,
    ConnectStep3,
    ConnectToUseCrawler,
    ConnectedTo,
    Connecting,
    ConnectingToServer,
    Connection,
    ConnectionError,
    CrawlComplete,
    CrawlFailed,
    Crawler,
    CrawlerDescription,
    DeleteBookmark,
    DeleteCert,
    Diagnose,
    DiagnosticComplete,
    DiagnosticFailed,
    DiagnosticLog,
    Disconnect,
    Disconnected,
    DiscoveringEndpoints,
    DisplayName,
    DnsFailed,
    ErrorCode,
    ErrorDescription,
    ErrorPanel,
    EstablishingConnection,
    Exit,
    ExportCSV,
    ExportJSON,
    File,
    FoundEndpoints,
    Help,
    LoadBookmark,
    MaxDepth,
    ModeNone,
    ModeSign,
    ModeSignAndEncrypt,
    Name,
    NewConnection,
    NoCertificates,
    NoEndpointsFound,
    NoErrors,
    NoItems,
    NoOpenPorts,
    NoSavedServers,
    Node,
    NodeId,
    OpenPkiFolder,
    Password,
    PortsOpen,
    ProductionSafe,
    Properties,
    Quality,
    ReadyNotConnected,
    RejectedCerts,
    Remove,
    ResolvingDns,
    SafetyMode,
    Save,
    SaveBookmark,
    SavedServers,
    ScanningPorts,
    SecurityAes128Sha256RsaOaep,
    SecurityAes256Sha256RsaPss,
    SecurityBasic128Rsa15,
    SecurityBasic256,
    SecurityBasic256Sha256,
    SecurityMode,
    SecurityNone,
    SecurityPolicy,
    ServerDisconnected,
    ServerInput,
    StartCrawl,
    StartInstructions,
    Stop,
    TaskCancelled,
    Timestamp,
    Trend,
    Trending,
    TrustCert,
    TrustedCerts,
    UseAuth,
    Username,
    ValidatingUrl,
    Value,
    ViewMenu,
    Watchlist,
    Welcome,
}

/// Look up the interface text for a key in the given language.
pub fn t(key: T, lang: Language) -> &'static str {
    match lang {
        Language::English => english(key),
        Language::Spanish => spanish(key),
    }
}

fn english(key: T) -> &'static str {
    match key {
        T::About => "About",
        T::AboutAuthor => "Author",
        T::AboutCompany => "DengInks",
        T::AboutTitle => "OPC-UA Diagnostic Tool",
        T::AboutVersion => "Version",
        T::AboutYear => "2024",
        T::Actions => "Actions",
        T::Anonymous => "Anonymous",
        T::AuthRequired => "Auth Required",
        T::Cancel => "Cancel",
        T::CancelTask => "Cancel Task",
        T::Certificates => "Certificates",
        T::Checking => "Checking...",
        T::ClearAll => "Clear All",
        T::ClientCertificate => "Client Certificate",
        T::Close => "Close",
        T::CommonErrors => "Common Errors",
        T::Configuration => "Configuration",
        T::Connect => "Connect",
        T::ConnectStep1 => "1. Diagnose the server address",
        T::ConnectStep2 => "2. Pick a discovered endpoint",
        T::ConnectStep3 => "3. Connect",
        T::ConnectToUseCrawler => "Connect to a server to use the crawler",
        T::ConnectedTo => "Connected to {}",
        T::Connecting => "Connecting...",
        T::ConnectingToServer => "Connecting to server...",
        T::Connection => "Connection",
        T::ConnectionError => "Connection error",
        T::CrawlComplete => "Crawl complete: {} nodes",
        T::CrawlFailed => "Crawl failed: {}",
        T::Crawler => "Crawler",
        T::CrawlerDescription => "Explore the server address space",
        T::DeleteBookmark => "Delete bookmark",
        T::DeleteCert => "Delete certificate",
        T::Diagnose => "Diagnose",
        T::DiagnosticComplete => "Diagnostic complete",
        T::DiagnosticFailed => "Diagnostic failed",
        T::DiagnosticLog => "Diagnostic log",
        T::Disconnect => "Disconnect",
        T::Disconnected => "Disconnected",
        T::DiscoveringEndpoints => "Discovering endpoints",
        T::DisplayName => "Display Name",
        T::DnsFailed => "DNS resolution failed",
        T::ErrorCode => "Error code",
        T::ErrorDescription => "Description",
        T::ErrorPanel => "Errors",
        T::EstablishingConnection => "Establishing connection...",
        T::Exit => "Exit",
        T::ExportCSV => "Export CSV",
        T::ExportJSON => "Export JSON",
        T::File => "File",
        T::FoundEndpoints => "Found endpoints",
        T::Help => "Help",
        T::LoadBookmark => "Load bookmark",
        T::MaxDepth => "Max depth",
        T::ModeNone => "None",
        T::ModeSign => "Sign",
        T::ModeSignAndEncrypt => "Sign & Encrypt",
        T::Name => "Name",
        T::NewConnection => "New Connection",
        T::NoCertificates => "No certificates",
        T::NoEndpointsFound => "No endpoints found on any open port",
        T::NoErrors => "No errors",
        T::NoItems => "No items in the watchlist",
        T::NoOpenPorts => "No open ports found",
        T::NoSavedServers => "No saved servers",
        T::Node => "Node",
        T::NodeId => "Node Id",
        T::OpenPkiFolder => "Open PKI folder",
        T::Password => "Password",
        T::PortsOpen => "Open ports",
        T::ProductionSafe => "Read-only operations",
        T::Properties => "Properties",
        T::Quality => "Quality",
        T::ReadyNotConnected => "Ready - not connected",
        T::RejectedCerts => "Rejected certificates",
        T::Remove => "Remove",
        T::ResolvingDns => "Resolving DNS",
        T::SafetyMode => "Safety mode",
        T::Save => "Save",
        T::SaveBookmark => "Save bookmark",
        T::SavedServers => "Saved servers",
        T::ScanningPorts => "Scanning ports",
        T::SecurityAes128Sha256RsaOaep => "Aes128 Sha256 RsaOaep",
        T::SecurityAes256Sha256RsaPss => "Aes256 Sha256 RsaPss",
        T::SecurityBasic128Rsa15 => "Basic128 Rsa15 (legacy)",
        T::SecurityBasic256 => "Basic256 (legacy)",
        T::SecurityBasic256Sha256 => "Basic256 Sha256",
        T::SecurityMode => "Security mode",
        T::SecurityNone => "None (No Security)",
        T::SecurityPolicy => "Security policy",
        T::ServerDisconnected => "Server disconnected",
        T::ServerInput => "Server address",
        T::StartCrawl => "Start crawl",
        T::StartInstructions => "Enter a server address to begin",
        T::Stop => "Stop",
        T::TaskCancelled => "Cancelled: {}",
        T::Timestamp => "Timestamp",
        T::Trend => "Trend",
        T::Trending => "Trending",
        T::TrustCert => "Trust certificate",
        T::TrustedCerts => "Trusted certificates",
        T::UseAuth => "Use authentication",
        T::Username => "Username",
        T::ValidatingUrl => "Validating input",
        T::Value => "Value",
        T::ViewMenu => "View",
        T::Watchlist => "Watchlist",
        T::Welcome => "Welcome",
    }
}

fn spanish(key: T) -> &'static str {
    match key {
        T::About => "Acerca de",
        T::AboutAuthor => "Autor",
        T::AboutCompany => "DengInks",
        T::AboutTitle => "Herramienta de diagnóstico OPC-UA",
        T::AboutVersion => "Versión",
        T::AboutYear => "2024",
        T::Actions => "Acciones",
        T::Anonymous => "Anónimo",
        T::AuthRequired => "Requiere autenticación",
        T::Cancel => "Cancelar",
        T::CancelTask => "Cancelar tarea",
        T::Certificates => "Certificados",
        T::Checking => "Comprobando...",
        T::ClearAll => "Limpiar todo",
        T::ClientCertificate => "Certificado de cliente",
        T::Close => "Cerrar",
        T::CommonErrors => "Errores comunes",
        T::Configuration => "Configuración",
        T::Connect => "Conectar",
        T::ConnectStep1 => "1. Diagnostica la dirección del servidor",
        T::ConnectStep2 => "2. Elige un punto de conexión descubierto",
        T::ConnectStep3 => "3. Conectar",
        T::ConnectToUseCrawler => "Conéctate a un servidor para usar el explorador",
        T::ConnectedTo => "Conectado a {}",
        T::Connecting => "Conectando...",
        T::ConnectingToServer => "Conectando al servidor...",
        T::Connection => "Conexión",
        T::ConnectionError => "Error de conexión",
        T::CrawlComplete => "Exploración completa: {} nodos",
        T::CrawlFailed => "Exploración fallida: {}",
        T::Crawler => "Explorador",
        T::CrawlerDescription => "Explora el espacio de direcciones del servidor",
        T::DeleteBookmark => "Eliminar marcador",
        T::DeleteCert => "Eliminar certificado",
        T::Diagnose => "Diagnosticar",
        T::DiagnosticComplete => "Diagnóstico completo",
        T::DiagnosticFailed => "Diagnóstico fallido",
        T::DiagnosticLog => "Registro de diagnóstico",
        T::Disconnect => "Desconectar",
        T::Disconnected => "Desconectado",
        T::DiscoveringEndpoints => "Descubriendo puntos de conexión",
        T::DisplayName => "Nombre",
        T::DnsFailed => "Fallo de resolución DNS",
        T::ErrorCode => "Código de error",
        T::ErrorDescription => "Descripción",
        T::ErrorPanel => "Errores",
        T::EstablishingConnection => "Estableciendo conexión...",
        T::Exit => "Salir",
        T::ExportCSV => "Exportar CSV",
        T::ExportJSON => "Exportar JSON",
        T::File => "Archivo",
        T::FoundEndpoints => "Puntos de conexión encontrados",
        T::Help => "Ayuda",
        T::LoadBookmark => "Cargar marcador",
        T::MaxDepth => "Profundidad máxima",
        T::ModeNone => "Ninguno",
        T::ModeSign => "Firmar",
        T::ModeSignAndEncrypt => "Firmar y cifrar",
        T::Name => "Nombre",
        T::NewConnection => "Nueva conexión",
        T::NoCertificates => "Sin certificados",
        T::NoEndpointsFound => "No se encontraron puntos de conexión en ningún puerto abierto",
        T::NoErrors => "Sin errores",
        T::NoItems => "No hay elementos en la lista",
        T::NoOpenPorts => "No se encontraron puertos abiertos",
        T::NoSavedServers => "No hay servidores guardados",
        T::Node => "Nodo",
        T::NodeId => "Id de nodo",
        T::OpenPkiFolder => "Abrir carpeta PKI",
        T::Password => "Contraseña",
        T::PortsOpen => "Puertos abiertos",
        T::ProductionSafe => "Operaciones de solo lectura",
        T::Properties => "Propiedades",
        T::Quality => "Calidad",
        T::ReadyNotConnected => "Listo - sin conexión",
        T::RejectedCerts => "Certificados rechazados",
        T::Remove => "Quitar",
        T::ResolvingDns => "Resolviendo DNS",
        T::SafetyMode => "Modo seguro",
        T::Save => "Guardar",
        T::SaveBookmark => "Guardar marcador",
        T::SavedServers => "Servidores guardados",
        T::ScanningPorts => "Escaneando puertos",
        T::SecurityAes128Sha256RsaOaep => "Aes128 Sha256 RsaOaep",
        T::SecurityAes256Sha256RsaPss => "Aes256 Sha256 RsaPss",
        T::SecurityBasic128Rsa15 => "Basic128 Rsa15 (antiguo)",
        T::SecurityBasic256 => "Basic256 (antiguo)",
        T::SecurityBasic256Sha256 => "Basic256 Sha256",
        T::SecurityMode => "Modo de seguridad",
        T::SecurityNone => "Ninguna (Sin seguridad)",
        T::SecurityPolicy => "Política de seguridad",
        T::ServerDisconnected => "Servidor desconectado",
        T::ServerInput => "Dirección del servidor",
        T::StartCrawl => "Iniciar exploración",
        T::StartInstructions => "Introduce una dirección de servidor para empezar",
        T::Stop => "Detener",
        T::TaskCancelled => "Cancelado: {}",
        T::Timestamp => "Marca de tiempo",
        T::Trend => "Tendencia",
        T::Trending => "Tendencias",
        T::TrustCert => "Confiar en el certificado",
        T::TrustedCerts => "Certificados confiables",
        T::UseAuth => "Usar autenticación",
        T::Username => "Usuario",
        T::ValidatingUrl => "Validando entrada",
        T::Value => "Valor",
        T::ViewMenu => "Ver",
        T::Watchlist => "Lista de observación",
        T::Welcome => "Bienvenido",
    }
}

} // verus!
