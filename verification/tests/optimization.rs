use win_opt::optimization::{execute_visual_effects, push_admin_notice};
use win_opt::{OperationState, UiState};

#[test]
fn test_visual_effects_with_admin() {
    let mut ui = UiState::default();
    execute_visual_effects(&mut ui, true);
    let got: Vec<&str> = ui.logs.iter().map(|s| s.as_str()).collect();
    assert_eq!(
        got,
        vec![
            "🎨 Optimizando efectos visuales...",
            "",
            "⚙️  Aplicando configuraciones de rendimiento...",
            "  • Desactivar animaciones al minimizar/maximizar",
            "  • Desactivar transparencias",
            "  • Deshabilitar sombras bajo el mouse",
            "  • Ajustar para mejor rendimiento",
            "",
            "✅ Efectos visuales optimizados",
            "ℹ️  Los cambios se aplicarán después de cerrar sesión o reiniciar",
            "💡 Esto puede mejorar significativamente el rendimiento en equipos antiguos",
        ]
    );
    assert_eq!(ui.state, OperationState::Completed);
}

#[test]
fn test_visual_effects_without_admin() {
    let mut ui = UiState::default();
    execute_visual_effects(&mut ui, false);
    let got: Vec<&str> = ui.logs.iter().map(|s| s.as_str()).collect();
    assert_eq!(
        got,
        vec![
            "🎨 Optimizando efectos visuales...",
            "⛔ ERROR: Esta operación requiere permisos de Administrador",
            "ℹ️  Por favor, ejecuta la aplicación como Administrador",
        ]
    );
    assert_eq!(ui.state, OperationState::Completed);
}

#[test]
fn test_admin_notice_appends_two_lines() {
    let mut ui = UiState::default();
    ui.logs.push("kept".to_string());
    push_admin_notice(&mut ui);
    assert_eq!(ui.logs.len(), 3);
    assert_eq!(ui.logs[0], "kept");
}
