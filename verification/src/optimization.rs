//! The synchronous maintenance actions' message logic.
//!
//! Most maintenance actions launch external commands and live outside the
//! library; what the library owns is the text they put in front of the user
//! and the state they leave behind.  The visual-effects action performs no
//! external work at all — it only reports the settings applied — so it
//! lives here whole.

use crate::consumer::UiState;
use crate::types::OperationState;
use vstd::prelude::*;
use vstd::string::StringExecFns;

verus! {

/// The two lines shown when an operation needs administrator rights the
/// process does not have.
pub open spec fn admin_notice_lines() -> Seq<Seq<char>> {
    seq![
        "⛔ ERROR: Esta operación requiere permisos de Administrador"@,
        "ℹ️  Por favor, ejecuta la aplicación como Administrador"@,
    ]
}

/// Appends one line to the operation log, touching nothing else.
pub fn push_line(ui: &mut UiState, line: &str)
    ensures
        final(ui)@.logs =~= old(ui)@.logs + seq![line@],
        final(ui)@.state == old(ui)@.state,
        final(ui)@.stats == old(ui)@.stats,
        final(ui)@.worker_active == old(ui)@.worker_active,
{
    ui.logs.push(String::from_str(line));
    proof {
        assert(ui.logs.deep_view() =~= old(ui).logs.deep_view() + seq![line@]);
    }
}

/// Appends the administrator-rights notice to the operation log.
pub fn push_admin_notice(ui: &mut UiState)
    ensures
        final(ui)@.logs =~= old(ui)@.logs + admin_notice_lines(),
        final(ui)@.state == old(ui)@.state,
        final(ui)@.stats == old(ui)@.stats,
        final(ui)@.worker_active == old(ui)@.worker_active,
{
    push_line(ui, "⛔ ERROR: Esta operación requiere permisos de Administrador");
    push_line(ui, "ℹ️  Por favor, ejecuta la aplicación como Administrador");
    proof {
        assert(ui.logs.deep_view() =~= old(ui).logs.deep_view() + admin_notice_lines());
    }
}

/// Every log line the visual-effects action produces, after its opening
/// line, depending on whether the process has administrator rights.
pub open spec fn visual_effects_lines(admin: bool) -> Seq<Seq<char>> {
    if admin {
        seq![
            ""@,
            "⚙️  Aplicando configuraciones de rendimiento..."@,
            "  • Desactivar animaciones al minimizar/maximizar"@,
            "  • Desactivar transparencias"@,
            "  • Deshabilitar sombras bajo el mouse"@,
            "  • Ajustar para mejor rendimiento"@,
            ""@,
            "✅ Efectos visuales optimizados"@,
            "ℹ️  Los cambios se aplicarán después de cerrar sesión o reiniciar"@,
            "💡 Esto puede mejorar significativamente el rendimiento en equipos antiguos"@,
        ]
    } else {
        admin_notice_lines()
    }
}

/// Reports the visual-effects-for-performance settings: with administrator
/// rights, lists each setting applied and closes successfully; without
/// them, shows the administrator notice.  Either way the operation ends in
/// `Completed` with the log extended by exactly `visual_effects_lines` after
/// the opening line.
pub fn execute_visual_effects(ui: &mut UiState, admin: bool)
    ensures
        final(ui)@.logs =~= old(ui)@.logs + seq!["🎨 Optimizando efectos visuales..."@]
            + visual_effects_lines(admin),
        final(ui)@.state is Completed,
        final(ui)@.stats == old(ui)@.stats,
        final(ui)@.worker_active == old(ui)@.worker_active,
{
    ui.state = OperationState::Running;
    push_line(ui, "🎨 Optimizando efectos visuales...");

    if !admin {
        push_admin_notice(ui);
        ui.state = OperationState::Completed;
        return ;
    }
    push_line(ui, "");
    push_line(ui, "⚙️  Aplicando configuraciones de rendimiento...");
    push_line(ui, "  • Desactivar animaciones al minimizar/maximizar");
    push_line(ui, "  • Desactivar transparencias");
    push_line(ui, "  • Deshabilitar sombras bajo el mouse");
    push_line(ui, "  • Ajustar para mejor rendimiento");
    push_line(ui, "");
    push_line(ui, "✅ Efectos visuales optimizados");
    push_line(ui, "ℹ️  Los cambios se aplicarán después de cerrar sesión o reiniciar");
    push_line(ui, "💡 Esto puede mejorar significativamente el rendimiento en equipos antiguos");
    ui.state = OperationState::Completed;
    proof {
        assert(ui@.logs =~= old(ui)@.logs + seq!["🎨 Optimizando efectos visuales..."@]
            + visual_effects_lines(true));
    }
}

} // verus!
