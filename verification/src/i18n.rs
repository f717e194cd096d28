//! Internationalisation: the supported languages and the full translation
//! table, as a total function from language and key to text.

use vstd::prelude::*;

verus! {

/// The languages the tool can speak.
#[derive(Debug, Clone, Copy, PartialEq, Eq, Hash, Structural)]
pub enum Language {
    Spanish,
    English,
}

impl Default for Language {
    /// The tool starts in Spanish.
    fn default() -> (r: Self)
        ensures
            r is Spanish,
    {
        Language::Spanish
    }
}

/// The language's short code, as used in logs.
pub open spec fn spec_code(l: Language) -> Seq<char> {
    match l {
        Language::Spanish => "es"@,
        Language::English => "en"@,
    }
}

/// The language's name in that language.
pub open spec fn spec_native_name(l: Language) -> Seq<char> {
    match l {
        Language::Spanish => "Español"@,
        Language::English => "English"@,
    }
}

/// The other language.
pub open spec fn spec_other(l: Language) -> Language {
    match l {
        Language::Spanish => Language::English,
        Language::English => Language::Spanish,
    }
}

impl Language {
    /// The short language code used in logs.
    pub fn code(&self) -> (r: &'static str)
        ensures
            r@ == spec_code(*self),
    {
        match self {
            Language::Spanish => "es",
            Language::English => "en",
        }
    }

    /// The language's name in its own language.
    pub fn native_name(&self) -> (r: &'static str)
        ensures
            r@ == spec_native_name(*self),
    {
        match self {
            Language::Spanish => "Español",
            Language::English => "English",
        }
    }
}

/// Every text the interface can show, by key.
#[derive(Debug, Clone, Copy, PartialEq, Eq, Hash, Structural)]
pub enum I18nKey {
    AppTitle,
    AppSubtitle,
    AppVersion,
    MainMenu,
    OperationsLog,
    MenuTempFiles,
    MenuTempFilesDesc,
    MenuRecycleBin,
    MenuRecycleBinDesc,
    MenuBrowserCache,
    MenuBrowserCacheDesc,
    MenuSystemLogs,
    MenuSystemLogsDesc,
    MenuWindowsUpdate,
    MenuWindowsUpdateDesc,
    MenuOptimize,
    MenuOptimizeDesc,
    MenuStartup,
    MenuStartupDesc,
    MenuVisualEffects,
    MenuVisualEffectsDesc,
    MenuNetwork,
    MenuNetworkDesc,
    MenuRepair,
    MenuRepairDesc,
    MenuPrivacy,
    MenuPrivacyDesc,
    MenuInfo,
    MenuInfoDesc,
    MenuExit,
    MenuExitDesc,
    FooterNavigate,
    FooterSelect,
    FooterBack,
    FooterExit,
    FooterScroll,
    FooterTheme,
    FooterLanguage,
    OpStarting,
    OpCompleted,
    OpError,
    OpRequiresAdmin,
    OpPleaseRunAsAdmin,
    OpRebootRecommended,
    CleanTitle,
    CleanStarting,
    CleanDirectory,
    CleanItemsFound,
    CleanProcessing,
    CleanCompleted,
    CleanErrorReading,
    StatsTitle,
    StatsDeleted,
    StatsSkipped,
    StatsFreed,
    NetworkTitle,
    NetworkStarting,
    NetworkDnsFlush,
    NetworkDnsSuccess,
    NetworkDnsError,
    NetworkWinsock,
    NetworkWinsockSuccess,
    NetworkWinsockError,
    RepairTitle,
    RepairStarting,
    RepairDism,
    RepairDismSuccess,
    RepairDismError,
    RepairSfc,
    RepairSfcSuccess,
    RepairSfcWarning,
    RepairWait,
    InfoTitle,
    InfoOs,
    InfoVersion,
    InfoKernel,
    InfoHost,
    InfoArch,
    InfoUptime,
    InfoCpu,
    InfoCores,
    InfoMemTotal,
    InfoMemUsed,
    InfoMemUsage,
    InfoDisks,
    BrowserCacheTitle,
    BrowserCacheStarting,
    BrowserCacheCleaning,
    BrowserCacheSuccess,
    BrowserCacheNotFound,
    BrowserCacheCloseWarning,
    SystemLogsTitle,
    SystemLogsStarting,
    SystemLogsCleaning,
    SystemLogsProcessed,
    SystemLogsRequiresAdmin,
    RecycleBinTitle,
    RecycleBinStarting,
    RecycleBinSuccess,
    RecycleBinWarning,
    RecycleBinFreed,
    WindowsUpdateTitle,
    WindowsUpdateStarting,
    WindowsUpdateCleaning,
    WindowsUpdateDiskCleanup,
    WindowsUpdateComponents,
    WindowsUpdateCompleted,
    OptimizeTitle,
    OptimizeStarting,
    OptimizePrefetch,
    OptimizePower,
    OptimizeServices,
    OptimizeCompleted,
    PrivacyTitle,
    PrivacyStarting,
    PrivacyTelemetry,
    PrivacyTasks,
    PrivacyCompleted,
    StartupTitle,
    StartupAnalyzing,
    StartupGettingList,
    StartupFound,
    StartupDisableHint,
    StartupRecommendation,
    VisualEffectsTitle,
    VisualEffectsOptimizing,
    VisualEffectsApplying,
    VisualEffectsCompleted,
    VisualEffectsLogoutRequired,
    VisualEffectsHint,
    Success,
    Warning,
    Error,
    Info,
}

/// The translation of `key` into `lang`.
pub open spec fn spec_translation(lang: Language, key: I18nKey) -> Seq<char> {
    match lang {
        Language::Spanish => spec_spanish(key),
        Language::English => spec_english(key),
    }
}

/// The translation system: it holds only the current language; the tables
/// are total functions.
pub struct I18n {
    current_language: Language,
}

impl I18n {
    /// The language translations currently come out in.
    pub closed spec fn lang(self) -> Language {
        self.current_language
    }

    /// A translation system speaking `language`.
    pub fn new(language: Language) -> (r: Self)
        ensures
            r.lang() == language,
    {
        I18n { current_language: language }
    }

    /// Switches to `language`.
    pub fn set_language(&mut self, language: Language)
        ensures
            final(self).lang() == language,
    {
        self.current_language = language;
    }

    /// The language translations currently come out in.
    pub fn current_language(&self) -> (r: Language)
        ensures
            r == self.lang(),
    {
        self.current_language
    }

    /// Switches to the other language.
    pub fn toggle_language(&mut self)
        ensures
            final(self).lang() == spec_other(old(self).lang()),
    {
        self.current_language = match self.current_language {
            Language::Spanish => Language::English,
            Language::English => Language::Spanish,
        };
    }

    /// The translation of `key` into the current language.
    pub fn t(&self, key: I18nKey) -> (r: &'static str)
        ensures
            r@ == spec_translation(self.lang(), key),
    {
        match self.current_language {
            Language::Spanish => spanish_text(key),
            Language::English => english_text(key),
        }
    }
}


/// The Spanish text for each key.
pub open spec fn spec_spanish(key: I18nKey) -> Seq<char> {
    match key {
        I18nKey::AppTitle => "WIN OPT"@,
        I18nKey::AppSubtitle => "Windows 11 Optimizer"@,
        I18nKey::AppVersion => "v1.2.0"@,
        I18nKey::MainMenu => "Menú Principal"@,
        I18nKey::OperationsLog => "Registro de Operaciones"@,
        I18nKey::MenuTempFiles => "Archivos Temporales"@,
        I18nKey::MenuTempFilesDesc => "Limpia archivos temp del sistema"@,
        I18nKey::MenuRecycleBin => "Papelera de Reciclaje"@,
        I18nKey::MenuRecycleBinDesc => "Vacía la papelera completamente"@,
        I18nKey::MenuBrowserCache => "Caché de Navegadores"@,
        I18nKey::MenuBrowserCacheDesc => "Limpia Chrome, Firefox, Edge"@,
        I18nKey::MenuSystemLogs => "Logs del Sistema"@,
        I18nKey::MenuSystemLogsDesc => "Elimina archivos de registro"@,
        I18nKey::MenuWindowsUpdate => "Windows Update"@,
        I18nKey::MenuWindowsUpdateDesc => "Limpia archivos de actualización"@,
        I18nKey::MenuOptimize => "Optimización Avanzada"@,
        I18nKey::MenuOptimizeDesc => "Servicios, energía y prefetch"@,
        I18nKey::MenuStartup => "Programas de Inicio"@,
        I18nKey::MenuStartupDesc => "Optimiza arranque de Windows"@,
        I18nKey::MenuVisualEffects => "Efectos Visuales"@,
        I18nKey::MenuVisualEffectsDesc => "Deshabilita animaciones"@,
        I18nKey::MenuNetwork => "Red"@,
        I18nKey::MenuNetworkDesc => "DNS flush & Winsock reset"@,
        I18nKey::MenuRepair => "Reparación"@,
        I18nKey::MenuRepairDesc => "DISM & SFC scan"@,
        I18nKey::MenuPrivacy => "Privacidad"@,
        I18nKey::MenuPrivacyDesc => "Desactiva telemetría"@,
        I18nKey::MenuInfo => "Info del Sistema"@,
        I18nKey::MenuInfoDesc => "Detalles del hardware"@,
        I18nKey::MenuExit => "Salir"@,
        I18nKey::MenuExitDesc => "Cerrar aplicación"@,
        I18nKey::FooterNavigate => "Navegar"@,
        I18nKey::FooterSelect => "Seleccionar"@,
        I18nKey::FooterBack => "Volver al menú"@,
        I18nKey::FooterExit => "Salir"@,
        I18nKey::FooterScroll => "Scroll"@,
        I18nKey::FooterTheme => "Tema"@,
        I18nKey::FooterLanguage => "Idioma"@,
        I18nKey::OpStarting => "Iniciando operación..."@,
        I18nKey::OpCompleted => "Operación completada"@,
        I18nKey::OpError => "Error en la operación"@,
        I18nKey::OpRequiresAdmin => "ERROR: Esta operación requiere permisos de Administrador"@,
        I18nKey::OpPleaseRunAsAdmin => "Por favor, ejecuta la aplicación como Administrador"@,
        I18nKey::OpRebootRecommended => "Se recomienda reiniciar el sistema para aplicar los cambios"@,
        I18nKey::CleanTitle => "Limpieza de Archivos Temporales"@,
        I18nKey::CleanStarting => "Iniciando limpieza de archivos temporales..."@,
        I18nKey::CleanDirectory => "Directorio:"@,
        I18nKey::CleanItemsFound => "Elementos encontrados:"@,
        I18nKey::CleanProcessing => "Procesando..."@,
        I18nKey::CleanCompleted => "Limpieza completada"@,
        I18nKey::CleanErrorReading => "Error al leer el directorio temporal"@,
        I18nKey::StatsTitle => "Estadísticas"@,
        I18nKey::StatsDeleted => "Elementos eliminados:"@,
        I18nKey::StatsSkipped => "Elementos omitidos:"@,
        I18nKey::StatsFreed => "Espacio liberado:"@,
        I18nKey::NetworkTitle => "Limpieza de Red"@,
        I18nKey::NetworkStarting => "Iniciando operaciones de red..."@,
        I18nKey::NetworkDnsFlush => "Ejecutando: ipconfig /flushdns"@,
        I18nKey::NetworkDnsSuccess => "Caché DNS limpiada exitosamente"@,
        I18nKey::NetworkDnsError => "Error al limpiar la caché DNS"@,
        I18nKey::NetworkWinsock => "Ejecutando: netsh winsock reset"@,
        I18nKey::NetworkWinsockSuccess => "Winsock reiniciado exitosamente"@,
        I18nKey::NetworkWinsockError => "Falló el reinicio de Winsock (se requieren permisos de administrador)"@,
        I18nKey::RepairTitle => "Reparación del Sistema"@,
        I18nKey::RepairStarting => "Iniciando reparación del sistema..."@,
        I18nKey::RepairDism => "Ejecutando DISM (Deployment Image Servicing and Management)..."@,
        I18nKey::RepairDismSuccess => "DISM finalizado correctamente"@,
        I18nKey::RepairDismError => "DISM finalizó con errores"@,
        I18nKey::RepairSfc => "Ejecutando SFC (System File Checker)..."@,
        I18nKey::RepairSfcSuccess => "Escaneo de archivos finalizado"@,
        I18nKey::RepairSfcWarning => "Escaneo finalizado con advertencias"@,
        I18nKey::RepairWait => "Esto puede tardar varios minutos..."@,
        I18nKey::InfoTitle => "Información del Sistema"@,
        I18nKey::InfoOs => "OS:"@,
        I18nKey::InfoVersion => "Versión:"@,
        I18nKey::InfoKernel => "Kernel:"@,
        I18nKey::InfoHost => "Host:"@,
        I18nKey::InfoArch => "Arquitectura:"@,
        I18nKey::InfoUptime => "Tiempo activo:"@,
        I18nKey::InfoCpu => "CPU:"@,
        I18nKey::InfoCores => "Núcleos:"@,
        I18nKey::InfoMemTotal => "Memoria Total:"@,
        I18nKey::InfoMemUsed => "Memoria Usada:"@,
        I18nKey::InfoMemUsage => "Uso de Memoria"@,
        I18nKey::InfoDisks => "Discos"@,
        I18nKey::BrowserCacheTitle => "Caché de Navegadores"@,
        I18nKey::BrowserCacheStarting => "Iniciando limpieza de caché de navegadores..."@,
        I18nKey::BrowserCacheCleaning => "Limpiando caché de"@,
        I18nKey::BrowserCacheSuccess => "Caché limpiada"@,
        I18nKey::BrowserCacheNotFound => "No encontrado o inaccesible"@,
        I18nKey::BrowserCacheCloseWarning => "Cierra los navegadores antes de ejecutar esta operación para mejores resultados"@,
        I18nKey::SystemLogsTitle => "Logs del Sistema"@,
        I18nKey::SystemLogsStarting => "Iniciando limpieza de logs del sistema..."@,
        I18nKey::SystemLogsCleaning => "Limpiando:"@,
        I18nKey::SystemLogsProcessed => "procesado"@,
        I18nKey::SystemLogsRequiresAdmin => "Requiere permisos de administrador"@,
        I18nKey::RecycleBinTitle => "Papelera de Reciclaje"@,
        I18nKey::RecycleBinStarting => "Iniciando vaciado de papelera de reciclaje..."@,
        I18nKey::RecycleBinSuccess => "Papelera de reciclaje vaciada exitosamente"@,
        I18nKey::RecycleBinWarning => "Advertencia: Algunas carpetas no pudieron vaciarse"@,
        I18nKey::RecycleBinFreed => "Espacio en disco liberado"@,
        I18nKey::WindowsUpdateTitle => "Limpieza de Windows Update"@,
        I18nKey::WindowsUpdateStarting => "Iniciando limpieza de Windows Update..."@,
        I18nKey::WindowsUpdateCleaning => "Eliminando archivos de actualización antiguos..."@,
        I18nKey::WindowsUpdateDiskCleanup => "Limpieza de disco iniciada"@,
        I18nKey::WindowsUpdateComponents => "Ejecutando limpieza de componentes..."@,
        I18nKey::WindowsUpdateCompleted => "Limpieza de Windows Update completada"@,
        I18nKey::OptimizeTitle => "Optimización Avanzada"@,
        I18nKey::OptimizeStarting => "Iniciando optimización avanzada del sistema..."@,
        I18nKey::OptimizePrefetch => "Limpiando archivos Prefetch..."@,
        I18nKey::OptimizePower => "Configurando plan de energía de alto rendimiento..."@,
        I18nKey::OptimizeServices => "Optimizando servicios del sistema..."@,
        I18nKey::OptimizeCompleted => "Optimización avanzada completada"@,
        I18nKey::PrivacyTitle => "Privacidad y Telemetría"@,
        I18nKey::PrivacyStarting => "Iniciando configuración de privacidad..."@,
        I18nKey::PrivacyTelemetry => "Deshabilitando telemetría de Windows..."@,
        I18nKey::PrivacyTasks => "Deshabilitando tareas programadas de telemetría..."@,
        I18nKey::PrivacyCompleted => "Configuración de privacidad completada"@,
        I18nKey::StartupTitle => "Programas de Inicio"@,
        I18nKey::StartupAnalyzing => "Analizando programas de inicio..."@,
        I18nKey::StartupGettingList => "Obteniendo lista de programas de inicio..."@,
        I18nKey::StartupFound => "Programas de inicio encontrados:"@,
        I18nKey::StartupDisableHint => "Para deshabilitar programas: Ejecuta 'msconfig' o 'Administrador de tareas'"@,
        I18nKey::StartupRecommendation => "Recomendación: Deshabilita programas innecesarios para acelerar el inicio"@,
        I18nKey::VisualEffectsTitle => "Efectos Visuales"@,
        I18nKey::VisualEffectsOptimizing => "Optimizando efectos visuales..."@,
        I18nKey::VisualEffectsApplying => "Aplicando configuraciones de rendimiento..."@,
        I18nKey::VisualEffectsCompleted => "Efectos visuales optimizados"@,
        I18nKey::VisualEffectsLogoutRequired => "Los cambios se aplicarán después de cerrar sesión o reiniciar"@,
        I18nKey::VisualEffectsHint => "Esto puede mejorar significativamente el rendimiento en equipos antiguos"@,
        I18nKey::Success => "Éxito"@,
        I18nKey::Warning => "Advertencia"@,
        I18nKey::Error => "Error"@,
        I18nKey::Info => "Información"@,
    }
}

/// The English text for each key.
pub open spec fn spec_english(key: I18nKey) -> Seq<char> {
    match key {
        I18nKey::AppTitle => "WIN OPT"@,
        I18nKey::AppSubtitle => "Windows 11 Optimizer"@,
        I18nKey::AppVersion => "v1.2.0"@,
        I18nKey::MainMenu => "Main Menu"@,
        I18nKey::OperationsLog => "Operation Log"@,
        I18nKey::MenuTempFiles => "Temporary Files"@,
        I18nKey::MenuTempFilesDesc => "Clean system temp files"@,
        I18nKey::MenuRecycleBin => "Recycle Bin"@,
        I18nKey::MenuRecycleBinDesc => "Empty recycle bin completely"@,
        I18nKey::MenuBrowserCache => "Browser Cache"@,
        I18nKey::MenuBrowserCacheDesc => "Clean Chrome, Firefox, Edge"@,
        I18nKey::MenuSystemLogs => "System Logs"@,
        I18nKey::MenuSystemLogsDesc => "Remove log files"@,
        I18nKey::MenuWindowsUpdate => "Windows Update"@,
        I18nKey::MenuWindowsUpdateDesc => "Clean update files"@,
        I18nKey::MenuOptimize => "Advanced Optimization"@,
        I18nKey::MenuOptimizeDesc => "Services, power and prefetch"@,
        I18nKey::MenuStartup => "Startup Programs"@,
        I18nKey::MenuStartupDesc => "Optimize Windows startup"@,
        I18nKey::MenuVisualEffects => "Visual Effects"@,
        I18nKey::MenuVisualEffectsDesc => "Disable animations"@,
        I18nKey::MenuNetwork => "Network"@,
        I18nKey::MenuNetworkDesc => "DNS flush & Winsock reset"@,
        I18nKey::MenuRepair => "Repair"@,
        I18nKey::MenuRepairDesc => "DISM & SFC scan"@,
        I18nKey::MenuPrivacy => "Privacy"@,
        I18nKey::MenuPrivacyDesc => "Disable telemetry"@,
        I18nKey::MenuInfo => "System Info"@,
        I18nKey::MenuInfoDesc => "Hardware details"@,
        I18nKey::MenuExit => "Exit"@,
        I18nKey::MenuExitDesc => "Close application"@,
        I18nKey::FooterNavigate => "Navigate"@,
        I18nKey::FooterSelect => "Select"@,
        I18nKey::FooterBack => "Back to menu"@,
        I18nKey::FooterExit => "Exit"@,
        I18nKey::FooterScroll => "Scroll"@,
        I18nKey::FooterTheme => "Theme"@,
        I18nKey::FooterLanguage => "Language"@,
        I18nKey::OpStarting => "Starting operation..."@,
        I18nKey::OpCompleted => "Operation completed"@,
        I18nKey::OpError => "Operation error"@,
        I18nKey::OpRequiresAdmin => "ERROR: This operation requires Administrator permissions"@,
        I18nKey::OpPleaseRunAsAdmin => "Please run the application as Administrator"@,
        I18nKey::OpRebootRecommended => "System restart recommended to apply changes"@,
        I18nKey::CleanTitle => "Temporary Files Cleanup"@,
        I18nKey::CleanStarting => "Starting temporary files cleanup..."@,
        I18nKey::CleanDirectory => "Directory:"@,
        I18nKey::CleanItemsFound => "Items found:"@,
        I18nKey::CleanProcessing => "Processing..."@,
        I18nKey::CleanCompleted => "Cleanup completed"@,
        I18nKey::CleanErrorReading => "Error reading temporary directory"@,
        I18nKey::StatsTitle => "Statistics"@,
        I18nKey::StatsDeleted => "Items deleted:"@,
        I18nKey::StatsSkipped => "Items skipped:"@,
        I18nKey::StatsFreed => "Space freed:"@,
        I18nKey::NetworkTitle => "Network Cleanup"@,
        I18nKey::NetworkStarting => "Starting network operations..."@,
        I18nKey::NetworkDnsFlush => "Running: ipconfig /flushdns"@,
        I18nKey::NetworkDnsSuccess => "DNS cache cleared successfully"@,
        I18nKey::NetworkDnsError => "Error clearing DNS cache"@,
        I18nKey::NetworkWinsock => "Running: netsh winsock reset"@,
        I18nKey::NetworkWinsockSuccess => "Winsock reset successfully"@,
        I18nKey::NetworkWinsockError => "Winsock reset failed (administrator permissions required)"@,
        I18nKey::RepairTitle => "System Repair"@,
        I18nKey::RepairStarting => "Starting system repair..."@,
        I18nKey::RepairDism => "Running DISM (Deployment Image Servicing and Management)..."@,
        I18nKey::RepairDismSuccess => "DISM completed successfully"@,
        I18nKey::RepairDismError => "DISM completed with errors"@,
        I18nKey::RepairSfc => "Running SFC (System File Checker)..."@,
        I18nKey::RepairSfcSuccess => "File scan completed"@,
        I18nKey::RepairSfcWarning => "Scan completed with warnings"@,
        I18nKey::RepairWait => "This may take several minutes..."@,
        I18nKey::InfoTitle => "System Information"@,
        I18nKey::InfoOs => "OS:"@,
        I18nKey::InfoVersion => "Version:"@,
        I18nKey::InfoKernel => "Kernel:"@,
        I18nKey::InfoHost => "Host:"@,
        I18nKey::InfoArch => "Architecture:"@,
        I18nKey::InfoUptime => "Uptime:"@,
        I18nKey::InfoCpu => "CPU:"@,
        I18nKey::InfoCores => "Cores:"@,
        I18nKey::InfoMemTotal => "Total Memory:"@,
        I18nKey::InfoMemUsed => "Used Memory:"@,
        I18nKey::InfoMemUsage => "Memory Usage"@,
        I18nKey::InfoDisks => "Disks"@,
        I18nKey::BrowserCacheTitle => "Browser Cache"@,
        I18nKey::BrowserCacheStarting => "Starting browser cache cleanup..."@,
        I18nKey::BrowserCacheCleaning => "Cleaning cache from"@,
        I18nKey::BrowserCacheSuccess => "Cache cleaned"@,
        I18nKey::BrowserCacheNotFound => "Not found or inaccessible"@,
        I18nKey::BrowserCacheCloseWarning => "Close browsers before running this operation for best results"@,
        I18nKey::SystemLogsTitle => "System Logs"@,
        I18nKey::SystemLogsStarting => "Starting system logs cleanup..."@,
        I18nKey::SystemLogsCleaning => "Cleaning:"@,
        I18nKey::SystemLogsProcessed => "processed"@,
        I18nKey::SystemLogsRequiresAdmin => "Requires administrator permissions"@,
        I18nKey::RecycleBinTitle => "Recycle Bin"@,
        I18nKey::RecycleBinStarting => "Starting recycle bin cleanup..."@,
        I18nKey::RecycleBinSuccess => "Recycle bin emptied successfully"@,
        I18nKey::RecycleBinWarning => "Warning: Some folders could not be emptied"@,
        I18nKey::RecycleBinFreed => "Disk space freed"@,
        I18nKey::WindowsUpdateTitle => "Windows Update Cleanup"@,
        I18nKey::WindowsUpdateStarting => "Starting Windows Update cleanup..."@,
        I18nKey::WindowsUpdateCleaning => "Removing old update files..."@,
        I18nKey::WindowsUpdateDiskCleanup => "Disk cleanup started"@,
        I18nKey::WindowsUpdateComponents => "Running component cleanup..."@,
        I18nKey::WindowsUpdateCompleted => "Windows Update cleanup completed"@,
        I18nKey::OptimizeTitle => "Advanced Optimization"@,
        I18nKey::OptimizeStarting => "Starting advanced system optimization..."@,
        I18nKey::OptimizePrefetch => "Cleaning Prefetch files..."@,
        I18nKey::OptimizePower => "Configuring high performance power plan..."@,
        I18nKey::OptimizeServices => "Optimizing system services..."@,
        I18nKey::OptimizeCompleted => "Advanced optimization completed"@,
        I18nKey::PrivacyTitle => "Privacy and Telemetry"@,
        I18nKey::PrivacyStarting => "Starting privacy configuration..."@,
        I18nKey::PrivacyTelemetry => "Disabling Windows telemetry..."@,
        I18nKey::PrivacyTasks => "Disabling telemetry scheduled tasks..."@,
        I18nKey::PrivacyCompleted => "Privacy configuration completed"@,
        I18nKey::StartupTitle => "Startup Programs"@,
        I18nKey::StartupAnalyzing => "Analyzing startup programs..."@,
        I18nKey::StartupGettingList => "Getting startup programs list..."@,
        I18nKey::StartupFound => "Startup programs found:"@,
        I18nKey::StartupDisableHint => "To disable programs: Run 'msconfig' or 'Task Manager'"@,
        I18nKey::StartupRecommendation => "Recommendation: Disable unnecessary programs to speed up startup"@,
        I18nKey::VisualEffectsTitle => "Visual Effects"@,
        I18nKey::VisualEffectsOptimizing => "Optimizing visual effects..."@,
        I18nKey::VisualEffectsApplying => "Applying performance settings..."@,
        I18nKey::VisualEffectsCompleted => "Visual effects optimized"@,
        I18nKey::VisualEffectsLogoutRequired => "Changes will apply after logging out or restarting"@,
        I18nKey::VisualEffectsHint => "This can significantly improve performance on older systems"@,
        I18nKey::Success => "Success"@,
        I18nKey::Warning => "Warning"@,
        I18nKey::Error => "Error"@,
        I18nKey::Info => "Information"@,
    }
}

/// The Spanish table.
fn spanish_text(key: I18nKey) -> (r: &'static str)
    ensures
        r@ == spec_spanish(key),
{
    match key {
        I18nKey::AppTitle => "WIN OPT",
        I18nKey::AppSubtitle => "Windows 11 Optimizer",
        I18nKey::AppVersion => "v1.2.0",
        I18nKey::MainMenu => "Menú Principal",
        I18nKey::OperationsLog => "Registro de Operaciones",
        I18nKey::MenuTempFiles => "Archivos Temporales",
        I18nKey::MenuTempFilesDesc => "Limpia archivos temp del sistema",
        I18nKey::MenuRecycleBin => "Papelera de Reciclaje",
        I18nKey::MenuRecycleBinDesc => "Vacía la papelera completamente",
        I18nKey::MenuBrowserCache => "Caché de Navegadores",
        I18nKey::MenuBrowserCacheDesc => "Limpia Chrome, Firefox, Edge",
        I18nKey::MenuSystemLogs => "Logs del Sistema",
        I18nKey::MenuSystemLogsDesc => "Elimina archivos de registro",
        I18nKey::MenuWindowsUpdate => "Windows Update",
        I18nKey::MenuWindowsUpdateDesc => "Limpia archivos de actualización",
        I18nKey::MenuOptimize => "Optimización Avanzada",
        I18nKey::MenuOptimizeDesc => "Servicios, energía y prefetch",
        I18nKey::MenuStartup => "Programas de Inicio",
        I18nKey::MenuStartupDesc => "Optimiza arranque de Windows",
        I18nKey::MenuVisualEffects => "Efectos Visuales",
        I18nKey::MenuVisualEffectsDesc => "Deshabilita animaciones",
        I18nKey::MenuNetwork => "Red",
        I18nKey::MenuNetworkDesc => "DNS flush & Winsock reset",
        I18nKey::MenuRepair => "Reparación",
        I18nKey::MenuRepairDesc => "DISM & SFC scan",
        I18nKey::MenuPrivacy => "Privacidad",
        I18nKey::MenuPrivacyDesc => "Desactiva telemetría",
        I18nKey::MenuInfo => "Info del Sistema",
        I18nKey::MenuInfoDesc => "Detalles del hardware",
        I18nKey::MenuExit => "Salir",
        I18nKey::MenuExitDesc => "Cerrar aplicación",
        I18nKey::FooterNavigate => "Navegar",
        I18nKey::FooterSelect => "Seleccionar",
        I18nKey::FooterBack => "Volver al menú",
        I18nKey::FooterExit => "Salir",
        I18nKey::FooterScroll => "Scroll",
        I18nKey::FooterTheme => "Tema",
        I18nKey::FooterLanguage => "Idioma",
        I18nKey::OpStarting => "Iniciando operación...",
        I18nKey::OpCompleted => "Operación completada",
        I18nKey::OpError => "Error en la operación",
        I18nKey::OpRequiresAdmin => "ERROR: Esta operación requiere permisos de Administrador",
        I18nKey::OpPleaseRunAsAdmin => "Por favor, ejecuta la aplicación como Administrador",
        I18nKey::OpRebootRecommended => "Se recomienda reiniciar el sistema para aplicar los cambios",
        I18nKey::CleanTitle => "Limpieza de Archivos Temporales",
        I18nKey::CleanStarting => "Iniciando limpieza de archivos temporales...",
        I18nKey::CleanDirectory => "Directorio:",
        I18nKey::CleanItemsFound => "Elementos encontrados:",
        I18nKey::CleanProcessing => "Procesando...",
        I18nKey::CleanCompleted => "Limpieza completada",
        I18nKey::CleanErrorReading => "Error al leer el directorio temporal",
        I18nKey::StatsTitle => "Estadísticas",
        I18nKey::StatsDeleted => "Elementos eliminados:",
        I18nKey::StatsSkipped => "Elementos omitidos:",
        I18nKey::StatsFreed => "Espacio liberado:",
        I18nKey::NetworkTitle => "Limpieza de Red",
        I18nKey::NetworkStarting => "Iniciando operaciones de red...",
        I18nKey::NetworkDnsFlush => "Ejecutando: ipconfig /flushdns",
        I18nKey::NetworkDnsSuccess => "Caché DNS limpiada exitosamente",
        I18nKey::NetworkDnsError => "Error al limpiar la caché DNS",
        I18nKey::NetworkWinsock => "Ejecutando: netsh winsock reset",
        I18nKey::NetworkWinsockSuccess => "Winsock reiniciado exitosamente",
        I18nKey::NetworkWinsockError => "Falló el reinicio de Winsock (se requieren permisos de administrador)",
        I18nKey::RepairTitle => "Reparación del Sistema",
        I18nKey::RepairStarting => "Iniciando reparación del sistema...",
        I18nKey::RepairDism => "Ejecutando DISM (Deployment Image Servicing and Management)...",
        I18nKey::RepairDismSuccess => "DISM finalizado correctamente",
        I18nKey::RepairDismError => "DISM finalizó con errores",
        I18nKey::RepairSfc => "Ejecutando SFC (System File Checker)...",
        I18nKey::RepairSfcSuccess => "Escaneo de archivos finalizado",
        I18nKey::RepairSfcWarning => "Escaneo finalizado con advertencias",
        I18nKey::RepairWait => "Esto puede tardar varios minutos...",
        I18nKey::InfoTitle => "Información del Sistema",
        I18nKey::InfoOs => "OS:",
        I18nKey::InfoVersion => "Versión:",
        I18nKey::InfoKernel => "Kernel:",
        I18nKey::InfoHost => "Host:",
        I18nKey::InfoArch => "Arquitectura:",
        I18nKey::InfoUptime => "Tiempo activo:",
        I18nKey::InfoCpu => "CPU:",
        I18nKey::InfoCores => "Núcleos:",
        I18nKey::InfoMemTotal => "Memoria Total:",
        I18nKey::InfoMemUsed => "Memoria Usada:",
        I18nKey::InfoMemUsage => "Uso de Memoria",
        I18nKey::InfoDisks => "Discos",
        I18nKey::BrowserCacheTitle => "Caché de Navegadores",
        I18nKey::BrowserCacheStarting => "Iniciando limpieza de caché de navegadores...",
        I18nKey::BrowserCacheCleaning => "Limpiando caché de",
        I18nKey::BrowserCacheSuccess => "Caché limpiada",
        I18nKey::BrowserCacheNotFound => "No encontrado o inaccesible",
        I18nKey::BrowserCacheCloseWarning => "Cierra los navegadores antes de ejecutar esta operación para mejores resultados",
        I18nKey::SystemLogsTitle => "Logs del Sistema",
        I18nKey::SystemLogsStarting => "Iniciando limpieza de logs del sistema...",
        I18nKey::SystemLogsCleaning => "Limpiando:",
        I18nKey::SystemLogsProcessed => "procesado",
        I18nKey::SystemLogsRequiresAdmin => "Requiere permisos de administrador",
        I18nKey::RecycleBinTitle => "Papelera de Reciclaje",
        I18nKey::RecycleBinStarting => "Iniciando vaciado de papelera de reciclaje...",
        I18nKey::RecycleBinSuccess => "Papelera de reciclaje vaciada exitosamente",
        I18nKey::RecycleBinWarning => "Advertencia: Algunas carpetas no pudieron vaciarse",
        I18nKey::RecycleBinFreed => "Espacio en disco liberado",
        I18nKey::WindowsUpdateTitle => "Limpieza de Windows Update",
        I18nKey::WindowsUpdateStarting => "Iniciando limpieza de Windows Update...",
        I18nKey::WindowsUpdateCleaning => "Eliminando archivos de actualización antiguos...",
        I18nKey::WindowsUpdateDiskCleanup => "Limpieza de disco iniciada",
        I18nKey::WindowsUpdateComponents => "Ejecutando limpieza de componentes...",
        I18nKey::WindowsUpdateCompleted => "Limpieza de Windows Update completada",
        I18nKey::OptimizeTitle => "Optimización Avanzada",
        I18nKey::OptimizeStarting => "Iniciando optimización avanzada del sistema...",
        I18nKey::OptimizePrefetch => "Limpiando archivos Prefetch...",
        I18nKey::OptimizePower => "Configurando plan de energía de alto rendimiento...",
        I18nKey::OptimizeServices => "Optimizando servicios del sistema...",
        I18nKey::OptimizeCompleted => "Optimización avanzada completada",
        I18nKey::PrivacyTitle => "Privacidad y Telemetría",
        I18nKey::PrivacyStarting => "Iniciando configuración de privacidad...",
        I18nKey::PrivacyTelemetry => "Deshabilitando telemetría de Windows...",
        I18nKey::PrivacyTasks => "Deshabilitando tareas programadas de telemetría...",
        I18nKey::PrivacyCompleted => "Configuración de privacidad completada",
        I18nKey::StartupTitle => "Programas de Inicio",
        I18nKey::StartupAnalyzing => "Analizando programas de inicio...",
        I18nKey::StartupGettingList => "Obteniendo lista de programas de inicio...",
        I18nKey::StartupFound => "Programas de inicio encontrados:",
        I18nKey::StartupDisableHint => "Para deshabilitar programas: Ejecuta 'msconfig' o 'Administrador de tareas'",
        I18nKey::StartupRecommendation => "Recomendación: Deshabilita programas innecesarios para acelerar el inicio",
        I18nKey::VisualEffectsTitle => "Efectos Visuales",
        I18nKey::VisualEffectsOptimizing => "Optimizando efectos visuales...",
        I18nKey::VisualEffectsApplying => "Aplicando configuraciones de rendimiento...",
        I18nKey::VisualEffectsCompleted => "Efectos visuales optimizados",
        I18nKey::VisualEffectsLogoutRequired => "Los cambios se aplicarán después de cerrar sesión o reiniciar",
        I18nKey::VisualEffectsHint => "Esto puede mejorar significativamente el rendimiento en equipos antiguos",
        I18nKey::Success => "Éxito",
        I18nKey::Warning => "Advertencia",
        I18nKey::Error => "Error",
        I18nKey::Info => "Información",
    }
}

/// The English table.
fn english_text(key: I18nKey) -> (r: &'static str)
    ensures
        r@ == spec_english(key),
{
    match key {
        I18nKey::AppTitle => "WIN OPT",
        I18nKey::AppSubtitle => "Windows 11 Optimizer",
        I18nKey::AppVersion => "v1.2.0",
        I18nKey::MainMenu => "Main Menu",
        I18nKey::OperationsLog => "Operation Log",
        I18nKey::MenuTempFiles => "Temporary Files",
        I18nKey::MenuTempFilesDesc => "Clean system temp files",
        I18nKey::MenuRecycleBin => "Recycle Bin",
        I18nKey::MenuRecycleBinDesc => "Empty recycle bin completely",
        I18nKey::MenuBrowserCache => "Browser Cache",
        I18nKey::MenuBrowserCacheDesc => "Clean Chrome, Firefox, Edge",
        I18nKey::MenuSystemLogs => "System Logs",
        I18nKey::MenuSystemLogsDesc => "Remove log files",
        I18nKey::MenuWindowsUpdate => "Windows Update",
        I18nKey::MenuWindowsUpdateDesc => "Clean update files",
        I18nKey::MenuOptimize => "Advanced Optimization",
        I18nKey::MenuOptimizeDesc => "Services, power and prefetch",
        I18nKey::MenuStartup => "Startup Programs",
        I18nKey::MenuStartupDesc => "Optimize Windows startup",
        I18nKey::MenuVisualEffects => "Visual Effects",
        I18nKey::MenuVisualEffectsDesc => "Disable animations",
        I18nKey::MenuNetwork => "Network",
        I18nKey::MenuNetworkDesc => "DNS flush & Winsock reset",
        I18nKey::MenuRepair => "Repair",
        I18nKey::MenuRepairDesc => "DISM & SFC scan",
        I18nKey::MenuPrivacy => "Privacy",
        I18nKey::MenuPrivacyDesc => "Disable telemetry",
        I18nKey::MenuInfo => "System Info",
        I18nKey::MenuInfoDesc => "Hardware details",
        I18nKey::MenuExit => "Exit",
        I18nKey::MenuExitDesc => "Close application",
        I18nKey::FooterNavigate => "Navigate",
        I18nKey::FooterSelect => "Select",
        I18nKey::FooterBack => "Back to menu",
        I18nKey::FooterExit => "Exit",
        I18nKey::FooterScroll => "Scroll",
        I18nKey::FooterTheme => "Theme",
        I18nKey::FooterLanguage => "Language",
        I18nKey::OpStarting => "Starting operation...",
        I18nKey::OpCompleted => "Operation completed",
        I18nKey::OpError => "Operation error",
        I18nKey::OpRequiresAdmin => "ERROR: This operation requires Administrator permissions",
        I18nKey::OpPleaseRunAsAdmin => "Please run the application as Administrator",
        I18nKey::OpRebootRecommended => "System restart recommended to apply changes",
        I18nKey::CleanTitle => "Temporary Files Cleanup",
        I18nKey::CleanStarting => "Starting temporary files cleanup...",
        I18nKey::CleanDirectory => "Directory:",
        I18nKey::CleanItemsFound => "Items found:",
        I18nKey::CleanProcessing => "Processing...",
        I18nKey::CleanCompleted => "Cleanup completed",
        I18nKey::CleanErrorReading => "Error reading temporary directory",
        I18nKey::StatsTitle => "Statistics",
        I18nKey::StatsDeleted => "Items deleted:",
        I18nKey::StatsSkipped => "Items skipped:",
        I18nKey::StatsFreed => "Space freed:",
        I18nKey::NetworkTitle => "Network Cleanup",
        I18nKey::NetworkStarting => "Starting network operations...",
        I18nKey::NetworkDnsFlush => "Running: ipconfig /flushdns",
        I18nKey::NetworkDnsSuccess => "DNS cache cleared successfully",
        I18nKey::NetworkDnsError => "Error clearing DNS cache",
        I18nKey::NetworkWinsock => "Running: netsh winsock reset",
        I18nKey::NetworkWinsockSuccess => "Winsock reset successfully",
        I18nKey::NetworkWinsockError => "Winsock reset failed (administrator permissions required)",
        I18nKey::RepairTitle => "System Repair",
        I18nKey::RepairStarting => "Starting system repair...",
        I18nKey::RepairDism => "Running DISM (Deployment Image Servicing and Management)...",
        I18nKey::RepairDismSuccess => "DISM completed successfully",
        I18nKey::RepairDismError => "DISM completed with errors",
        I18nKey::RepairSfc => "Running SFC (System File Checker)...",
        I18nKey::RepairSfcSuccess => "File scan completed",
        I18nKey::RepairSfcWarning => "Scan completed with warnings",
        I18nKey::RepairWait => "This may take several minutes...",
        I18nKey::InfoTitle => "System Information",
        I18nKey::InfoOs => "OS:",
        I18nKey::InfoVersion => "Version:",
        I18nKey::InfoKernel => "Kernel:",
        I18nKey::InfoHost => "Host:",
        I18nKey::InfoArch => "Architecture:",
        I18nKey::InfoUptime => "Uptime:",
        I18nKey::InfoCpu => "CPU:",
        I18nKey::InfoCores => "Cores:",
        I18nKey::InfoMemTotal => "Total Memory:",
        I18nKey::InfoMemUsed => "Used Memory:",
        I18nKey::InfoMemUsage => "Memory Usage",
        I18nKey::InfoDisks => "Disks",
        I18nKey::BrowserCacheTitle => "Browser Cache",
        I18nKey::BrowserCacheStarting => "Starting browser cache cleanup...",
        I18nKey::BrowserCacheCleaning => "Cleaning cache from",
        I18nKey::BrowserCacheSuccess => "Cache cleaned",
        I18nKey::BrowserCacheNotFound => "Not found or inaccessible",
        I18nKey::BrowserCacheCloseWarning => "Close browsers before running this operation for best results",
        I18nKey::SystemLogsTitle => "System Logs",
        I18nKey::SystemLogsStarting => "Starting system logs cleanup...",
        I18nKey::SystemLogsCleaning => "Cleaning:",
        I18nKey::SystemLogsProcessed => "processed",
        I18nKey::SystemLogsRequiresAdmin => "Requires administrator permissions",
        I18nKey::RecycleBinTitle => "Recycle Bin",
        I18nKey::RecycleBinStarting => "Starting recycle bin cleanup...",
        I18nKey::RecycleBinSuccess => "Recycle bin emptied successfully",
        I18nKey::RecycleBinWarning => "Warning: Some folders could not be emptied",
        I18nKey::RecycleBinFreed => "Disk space freed",
        I18nKey::WindowsUpdateTitle => "Windows Update Cleanup",
        I18nKey::WindowsUpdateStarting => "Starting Windows Update cleanup...",
        I18nKey::WindowsUpdateCleaning => "Removing old update files...",
        I18nKey::WindowsUpdateDiskCleanup => "Disk cleanup started",
        I18nKey::WindowsUpdateComponents => "Running component cleanup...",
        I18nKey::WindowsUpdateCompleted => "Windows Update cleanup completed",
        I18nKey::OptimizeTitle => "Advanced Optimization",
        I18nKey::OptimizeStarting => "Starting advanced system optimization...",
        I18nKey::OptimizePrefetch => "Cleaning Prefetch files...",
        I18nKey::OptimizePower => "Configuring high performance power plan...",
        I18nKey::OptimizeServices => "Optimizing system services...",
        I18nKey::OptimizeCompleted => "Advanced optimization completed",
        I18nKey::PrivacyTitle => "Privacy and Telemetry",
        I18nKey::PrivacyStarting => "Starting privacy configuration...",
        I18nKey::PrivacyTelemetry => "Disabling Windows telemetry...",
        I18nKey::PrivacyTasks => "Disabling telemetry scheduled tasks...",
        I18nKey::PrivacyCompleted => "Privacy configuration completed",
        I18nKey::StartupTitle => "Startup Programs",
        I18nKey::StartupAnalyzing => "Analyzing startup programs...",
        I18nKey::StartupGettingList => "Getting startup programs list...",
        I18nKey::StartupFound => "Startup programs found:",
        I18nKey::StartupDisableHint => "To disable programs: Run 'msconfig' or 'Task Manager'",
        I18nKey::StartupRecommendation => "Recommendation: Disable unnecessary programs to speed up startup",
        I18nKey::VisualEffectsTitle => "Visual Effects",
        I18nKey::VisualEffectsOptimizing => "Optimizing visual effects...",
        I18nKey::VisualEffectsApplying => "Applying performance settings...",
        I18nKey::VisualEffectsCompleted => "Visual effects optimized",
        I18nKey::VisualEffectsLogoutRequired => "Changes will apply after logging out or restarting",
        I18nKey::VisualEffectsHint => "This can significantly improve performance on older systems",
        I18nKey::Success => "Success",
        I18nKey::Warning => "Warning",
        I18nKey::Error => "Error",
        I18nKey::Info => "Information",
    }
}

} // verus!
