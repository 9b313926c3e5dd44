//! The built-in profile catalogue for auto mode, and how the app in front picks its profile.
//!
//! Order matters: the most specific profiles (a browser tab by its title) come first, so they win
//! over the generic browser profile; the fallback, with nothing to match, comes last. Every
//! profile is editable from the host; closing the app in front lives in the client's reserved
//! panel, not in this catalogue.
use vstd::prelude::*;

use crate::config::{Button, ButtonView, Profile, ProfileView};
use crate::layout::{first_fallback, profile_views};
use crate::text::own;

verus! {

/// A button in the profile's recommended selection.
pub fn b(label: &str, icon: &str, action: &str) -> (r: Button)
    ensures
        r@ == (ButtonView { label: label@, icon: icon@, action: action@, danger: false, recommended: true }),
{
    Button { label: own(label), icon: own(icon), action: own(action), danger: false, recommended: true }
}

/// A dangerous button in the recommended selection: painted red, confirmed before it runs.
pub fn bd(label: &str, icon: &str, action: &str) -> (r: Button)
    ensures
        r@ == (ButtonView { label: label@, icon: icon@, action: action@, danger: true, recommended: true }),
{
    Button { label: own(label), icon: own(icon), action: own(action), danger: true, recommended: true }
}

/// An extra button: available in the profile, outside its recommended selection.
pub fn bx(label: &str, icon: &str, action: &str) -> (r: Button)
    ensures
        r@ == (ButtonView { label: label@, icon: icon@, action: action@, danger: false, recommended: false }),
{
    Button { label: own(label), icon: own(icon), action: own(action), danger: false, recommended: false }
}

/// A deliberate hole in the recommended grid, where a client exposes no safe equivalent for a
/// slot: the shared layout keeps its shape without inventing a shortcut.
pub fn gap() -> (r: Button)
    ensures
        r@ == (ButtonView { label: Seq::empty(), icon: Seq::empty(), action: Seq::empty(), danger: false, recommended: true }),
{
    Button { label: String::new(), icon: String::new(), action: String::new(), danger: false, recommended: true }
}

/// An extra and dangerous button.
pub fn bxd(label: &str, icon: &str, action: &str) -> (r: Button)
    ensures
        r@ == (ButtonView { label: label@, icon: icon@, action: action@, danger: true, recommended: false }),
{
    Button { label: own(label), icon: own(icon), action: own(action), danger: true, recommended: false }
}

/// Whether a stored button sits in the recommended selection when the stored file does not say:
/// it does.
pub fn yes() -> (r: bool)
    ensures
        r,
{
    true
}

/// A profile from its id, the words that select it and its buttons.
pub fn profile(id: &str, matches: &[&str], buttons: Vec<Button>) -> (r: Profile)
    ensures
        r@.id == id@,
        r@.matches == matches@.map_values(|m: &str| m@),
        r@.buttons == buttons@.map_values(|x: Button| x@),
{
    let mut ms: Vec<String> = Vec::new();
    let mut i: usize = 0;
    while i < matches.len()
        invariant
            i <= matches.len(),
            ms@.len() == i,
            forall|k: int| 0 <= k < i ==> (#[trigger] ms@[k])@ == matches@[k]@,
        decreases matches.len() - i,
    {
        ms.push(own(matches[i]));
        i = i + 1;
    }
    assert(ms@.map_values(|s: String| s@) =~= matches@.map_values(|m: &str| m@));
    Profile { id: own(id), matches: ms, buttons }
}

/// Part 1 of the catalogue, by contents.
#[verifier::opaque]
pub open spec fn catalogue_0() -> Seq<ProfileView> {
    seq![
        ProfileView {
            id: "codex-cli"@,
            matches: seq!["codex"@],
            buttons: seq![
                ButtonView { label: "Modelo"@, icon: "model"@, action: "type:/model>>enter"@, danger: false, recommended: true },
                ButtonView { label: "Aprobaciones"@, icon: "settings"@, action: "type:/approvals>>enter"@, danger: false, recommended: true },
                ButtonView { label: "Compactar"@, icon: "archive"@, action: "type:/compact>>enter"@, danger: false, recommended: true },
                ButtonView { label: "Nuevo chat"@, icon: "new"@, action: "type:/new>>enter"@, danger: false, recommended: true },
                ButtonView { label: "Copiar"@, icon: "copy"@, action: "ctrl+shift+c"@, danger: false, recommended: true },
                ButtonView { label: "Pegar"@, icon: "paste"@, action: "ctrl+shift+v"@, danger: false, recommended: true },
                ButtonView { label: "Aceptar"@, icon: "accept"@, action: "enter"@, danger: false, recommended: true },
                ButtonView { label: "Rechazar"@, icon: "close"@, action: "esc"@, danger: false, recommended: true },
                ButtonView { label: "Subir"@, icon: "scrollup"@, action: "up"@, danger: false, recommended: true },
                ButtonView { label: "Bajar"@, icon: "scrolldown"@, action: "down"@, danger: false, recommended: true },
                ButtonView { label: "Izquierda"@, icon: "prev"@, action: "left"@, danger: false, recommended: true },
                ButtonView { label: "Derecha"@, icon: "next"@, action: "right"@, danger: false, recommended: true },
                ButtonView { label: "Revisar"@, icon: "find"@, action: "type:/review>>enter"@, danger: false, recommended: false },
                ButtonView { label: "Nueva línea"@, icon: "text"@, action: "shift+enter"@, danger: false, recommended: false },
                ButtonView { label: "Dictar"@, icon: "mic"@, action: "dictate"@, danger: false, recommended: false },
            ],
        },
        ProfileView {
            id: "gemini-cli"@,
            matches: seq!["gemini"@],
            buttons: seq![
                ButtonView { label: "Modelo"@, icon: "model"@, action: "type:/model>>enter"@, danger: false, recommended: true },
                ButtonView { label: "Agentes"@, icon: "people"@, action: "type:/agents>>enter"@, danger: false, recommended: true },
                ButtonView { label: "MCP"@, icon: "link"@, action: "type:/mcp reload>>enter"@, danger: false, recommended: true },
                ButtonView { label: "Limpiar"@, icon: "delete"@, action: "ctrl+l"@, danger: false, recommended: true },
                ButtonView { label: "Copiar"@, icon: "copy"@, action: "ctrl+shift+c"@, danger: false, recommended: true },
                ButtonView { label: "Pegar"@, icon: "paste"@, action: "ctrl+shift+v"@, danger: false, recommended: true },
                ButtonView { label: "Aceptar"@, icon: "accept"@, action: "enter"@, danger: false, recommended: true },
                ButtonView { label: "Rechazar"@, icon: "close"@, action: "esc"@, danger: false, recommended: true },
                ButtonView { label: "Subir"@, icon: "scrollup"@, action: "up"@, danger: false, recommended: true },
                ButtonView { label: "Bajar"@, icon: "scrolldown"@, action: "down"@, danger: false, recommended: true },
                ButtonView { label: "Izquierda"@, icon: "prev"@, action: "left"@, danger: false, recommended: true },
                ButtonView { label: "Derecha"@, icon: "next"@, action: "right"@, danger: false, recommended: true },
                ButtonView { label: "Memoria"@, icon: "history"@, action: "type:/memory reload>>enter"@, danger: false, recommended: false },
                ButtonView { label: "Nueva línea"@, icon: "text"@, action: "shift+enter"@, danger: false, recommended: false },
                ButtonView { label: "Dictar"@, icon: "mic"@, action: "dictate"@, danger: false, recommended: false },
            ],
        },
        ProfileView {
            id: "aider"@,
            matches: seq!["aider"@],
            buttons: seq![
                ButtonView { label: "Modelo"@, icon: "model"@, action: "prompt:Modelo=type:/model {}>>enter"@, danger: false, recommended: true },
                ButtonView { label: "Esfuerzo"@, icon: "effort"@, action: "prompt:Esfuerzo=type:/reasoning-effort {}>>enter"@, danger: false, recommended: true },
                ButtonView { label: "Arquitecto"@, icon: "model"@, action: "type:/architect>>enter"@, danger: false, recommended: true },
                ButtonView { label: "Código"@, icon: "terminal"@, action: "type:/code>>enter"@, danger: false, recommended: true },
                ButtonView { label: "Deshacer"@, icon: "undo"@, action: "type:/undo>>enter"@, danger: false, recommended: true },
                ButtonView { label: "Diferencias"@, icon: "find"@, action: "type:/diff>>enter"@, danger: false, recommended: true },
                ButtonView { label: "Aceptar"@, icon: "accept"@, action: "enter"@, danger: false, recommended: true },
                ButtonView { label: "Rechazar"@, icon: "close"@, action: "esc"@, danger: false, recommended: true },
                ButtonView { label: "Subir"@, icon: "scrollup"@, action: "up"@, danger: false, recommended: true },
                ButtonView { label: "Bajar"@, icon: "scrolldown"@, action: "down"@, danger: false, recommended: true },
                ButtonView { label: "Izquierda"@, icon: "prev"@, action: "left"@, danger: false, recommended: true },
                ButtonView { label: "Derecha"@, icon: "next"@, action: "right"@, danger: false, recommended: true },
                ButtonView { label: "Preguntar"@, icon: "comment"@, action: "type:/ask>>enter"@, danger: false, recommended: false },
                ButtonView { label: "Commit"@, icon: "save"@, action: "type:/commit>>enter"@, danger: false, recommended: false },
                ButtonView { label: "Copiar"@, icon: "copy"@, action: "type:/copy>>enter"@, danger: false, recommended: false },
                ButtonView { label: "Dictar"@, icon: "mic"@, action: "dictate"@, danger: false, recommended: false },
            ],
        },
        ProfileView {
            id: "codex-desktop"@,
            matches: seq!["codex"@],
            buttons: seq![
                ButtonView { label: "Modelo"@, icon: "model"@, action: "ctrl+shift+m"@, danger: false, recommended: true },
                ButtonView { label: "Esfuerzo -"@, icon: "zoomout"@, action: "ctrl+alt+shift+k"@, danger: false, recommended: true },
                ButtonView { label: "Esfuerzo +"@, icon: "zoomin"@, action: "ctrl+alt+shift+i"@, danger: false, recommended: true },
                ButtonView { label: "Velocidad"@, icon: "bolt"@, action: "ctrl+alt+shift+f"@, danger: false, recommended: true },
                ButtonView { label: "Deshacer"@, icon: "undo"@, action: "ctrl+z"@, danger: false, recommended: true },
                ButtonView { label: "Revisar"@, icon: "find"@, action: "ctrl+shift+g"@, danger: false, recommended: true },
                ButtonView { label: "Aceptar"@, icon: "accept"@, action: "enter"@, danger: false, recommended: true },
                ButtonView { label: "Rechazar"@, icon: "close"@, action: "esc"@, danger: false, recommended: true },
                ButtonView { label: "Subir"@, icon: "scrollup"@, action: "up"@, danger: false, recommended: true },
                ButtonView { label: "Bajar"@, icon: "scrolldown"@, action: "down"@, danger: false, recommended: true },
                ButtonView { label: "Izquierda"@, icon: "prev"@, action: "left"@, danger: false, recommended: true },
                ButtonView { label: "Derecha"@, icon: "next"@, action: "right"@, danger: false, recommended: true },
                ButtonView { label: "Anterior"@, icon: "prev"@, action: "shift+tab"@, danger: false, recommended: false },
                ButtonView { label: "Siguiente"@, icon: "next"@, action: "tab"@, danger: false, recommended: false },
                ButtonView { label: "Seleccionar"@, icon: "accept"@, action: "enter"@, danger: false, recommended: false },
                ButtonView { label: "Cancelar"@, icon: "close"@, action: "esc"@, danger: false, recommended: false },
                ButtonView { label: "Nueva línea"@, icon: "text"@, action: "shift+enter"@, danger: false, recommended: false },
                ButtonView { label: "Dictar"@, icon: "mic"@, action: "ctrl+shift+d"@, danger: false, recommended: false },
            ],
        },
        ProfileView {
            id: "lm-studio"@,
            matches: seq!["lm studio"@, "lmstudio"@],
            buttons: seq![
                ButtonView { label: Seq::empty(), icon: Seq::empty(), action: Seq::empty(), danger: false, recommended: true },
                ButtonView { label: Seq::empty(), icon: Seq::empty(), action: Seq::empty(), danger: false, recommended: true },
                ButtonView { label: "Dictar"@, icon: "mic"@, action: "dictate"@, danger: false, recommended: true },
                ButtonView { label: "Nueva línea"@, icon: "text"@, action: "shift+enter"@, danger: false, recommended: true },
                ButtonView { label: "Copiar"@, icon: "copy"@, action: "ctrl+c"@, danger: false, recommended: true },
                ButtonView { label: "Pegar"@, icon: "paste"@, action: "ctrl+v"@, danger: false, recommended: true },
                ButtonView { label: "Enviar"@, icon: "send"@, action: "enter"@, danger: false, recommended: true },
                ButtonView { label: "Detener"@, icon: "close"@, action: "esc"@, danger: false, recommended: true },
                ButtonView { label: "Subir"@, icon: "scrollup"@, action: "up"@, danger: false, recommended: true },
                ButtonView { label: "Bajar"@, icon: "scrolldown"@, action: "down"@, danger: false, recommended: true },
                ButtonView { label: "Izquierda"@, icon: "prev"@, action: "left"@, danger: false, recommended: true },
                ButtonView { label: "Derecha"@, icon: "next"@, action: "right"@, danger: false, recommended: true },
            ],
        },
        ProfileView {
            id: "gsheets"@,
            matches: seq!["google sheets"@, "hojas de cálculo"@],
            buttons: seq![
                ButtonView { label: "Negrita"@, icon: "bold"@, action: "ctrl+b"@, danger: false, recommended: true },
                ButtonView { label: "Buscar"@, icon: "find"@, action: "ctrl+f"@, danger: false, recommended: true },
                ButtonView { label: "Deshacer"@, icon: "undo"@, action: "ctrl+z"@, danger: false, recommended: true },
                ButtonView { label: "Rehacer"@, icon: "redo"@, action: "ctrl+y"@, danger: false, recommended: true },
                ButtonView { label: "Copiar"@, icon: "copy"@, action: "ctrl+c"@, danger: false, recommended: true },
                ButtonView { label: "Pegar"@, icon: "paste"@, action: "ctrl+v"@, danger: false, recommended: true },
                ButtonView { label: "Cursiva"@, icon: "italic"@, action: "ctrl+i"@, danger: false, recommended: false },
                ButtonView { label: "Subrayado"@, icon: "underline"@, action: "ctrl+u"@, danger: false, recommended: false },
                ButtonView { label: "Cortar"@, icon: "cut"@, action: "ctrl+x"@, danger: false, recommended: false },
                ButtonView { label: "Imprimir"@, icon: "print"@, action: "ctrl+p"@, danger: false, recommended: false },
                ButtonView { label: "Dictar"@, icon: "mic"@, action: "dictate"@, danger: false, recommended: false },
            ],
        },
        ProfileView {
            id: "gdocs"@,
            matches: seq!["google docs"@, "documentos de google"@],
            buttons: seq![
                ButtonView { label: "Negrita"@, icon: "bold"@, action: "ctrl+b"@, danger: false, recommended: true },
                ButtonView { label: "Buscar"@, icon: "find"@, action: "ctrl+f"@, danger: false, recommended: true },
                ButtonView { label: "Deshacer"@, icon: "undo"@, action: "ctrl+z"@, danger: false, recommended: true },
                ButtonView { label: "Copiar"@, icon: "copy"@, action: "ctrl+c"@, danger: false, recommended: true },
                ButtonView { label: "Pegar"@, icon: "paste"@, action: "ctrl+v"@, danger: false, recommended: true },
                ButtonView { label: "Cursiva"@, icon: "italic"@, action: "ctrl+i"@, danger: false, recommended: false },
                ButtonView { label: "Subrayado"@, icon: "underline"@, action: "ctrl+u"@, danger: false, recommended: false },
                ButtonView { label: "Enlace"@, icon: "link"@, action: "ctrl+k"@, danger: false, recommended: false },
                ButtonView { label: "Rehacer"@, icon: "redo"@, action: "ctrl+y"@, danger: false, recommended: false },
                ButtonView { label: "Imprimir"@, icon: "print"@, action: "ctrl+p"@, danger: false, recommended: false },
                ButtonView { label: "Sel. todo"@, icon: "selectall"@, action: "ctrl+a"@, danger: false, recommended: false },
                ButtonView { label: "Eliminar"@, icon: "delete"@, action: "delete"@, danger: true, recommended: false },
                ButtonView { label: "Dictar"@, icon: "mic"@, action: "dictate"@, danger: false, recommended: false },
            ],
        },
        ProfileView {
            id: "gdrive"@,
            matches: seq!["google drive"@, "mi unidad"@],
            buttons: seq![
                ButtonView { label: "Buscar"@, icon: "find"@, action: "ctrl+f"@, danger: false, recommended: true },
                ButtonView { label: "Nueva pestaña"@, icon: "new"@, action: "ctrl+t"@, danger: false, recommended: true },
                ButtonView { label: "Copiar"@, icon: "copy"@, action: "ctrl+c"@, danger: false, recommended: true },
                ButtonView { label: "Pegar"@, icon: "paste"@, action: "ctrl+v"@, danger: false, recommended: true },
                ButtonView { label: "Nueva carpeta"@, icon: "newfolder"@, action: "shift+f"@, danger: false, recommended: false },
                ButtonView { label: "Renombrar"@, icon: "rename"@, action: "n"@, danger: false, recommended: false },
                ButtonView { label: "Sel. todo"@, icon: "selectall"@, action: "ctrl+a"@, danger: false, recommended: false },
                ButtonView { label: "Eliminar"@, icon: "delete"@, action: "delete"@, danger: true, recommended: false },
            ],
        },
        ProfileView {
            id: "gmail"@,
            matches: seq!["gmail"@],
            buttons: seq![
                ButtonView { label: "Atajos Gmail"@, icon: "settings"@, action: "picker:Activar atajos=?>>tab>>enter;Abrir configuración=open:https://mail.google.com/mail/u/0/#settings/general;Ver estado=?"@, danger: false, recommended: true },
                ButtonView { label: "Redactar"@, icon: "new"@, action: "c"@, danger: false, recommended: true },
                ButtonView { label: "Buscar"@, icon: "find"@, action: "/"@, danger: false, recommended: true },
                ButtonView { label: "Responder"@, icon: "reply"@, action: "r"@, danger: false, recommended: true },
                ButtonView { label: "Archivar"@, icon: "archive"@, action: "e"@, danger: false, recommended: true },
                ButtonView { label: "Resp. todos"@, icon: "replyall"@, action: "a"@, danger: false, recommended: false },
                ButtonView { label: "Reenviar"@, icon: "forward"@, action: "f"@, danger: false, recommended: false },
                ButtonView { label: "Eliminar"@, icon: "delete"@, action: "#"@, danger: false, recommended: false },
                ButtonView { label: "Destacar"@, icon: "star"@, action: "s"@, danger: false, recommended: false },
                ButtonView { label: "Enviar"@, icon: "send"@, action: "ctrl+enter"@, danger: false, recommended: false },
                ButtonView { label: "Dictar"@, icon: "mic"@, action: "dictate"@, danger: false, recommended: false },
            ],
        },
        ProfileView {
            id: "youtube"@,
            matches: seq!["youtube"@],
            buttons: seq![
                ButtonView { label: "Play/Pausa"@, icon: "play"@, action: "k"@, danger: false, recommended: true },
                ButtonView { label: "Silenciar"@, icon: "mute"@, action: "m"@, danger: false, recommended: true },
                ButtonView { label: "Pantalla completa"@, icon: "video"@, action: "f"@, danger: false, recommended: true },
                ButtonView { label: "Adelante"@, icon: "redo"@, action: "l"@, danger: false, recommended: false },
                ButtonView { label: "Atrás"@, icon: "undo"@, action: "j"@, danger: false, recommended: false },
                ButtonView { label: "Siguiente"@, icon: "redo"@, action: "shift+n"@, danger: false, recommended: false },
                ButtonView { label: "Subtítulos"@, icon: "text"@, action: "c"@, danger: false, recommended: false },
                ButtonView { label: "Teatro"@, icon: "fullscreen"@, action: "t"@, danger: false, recommended: false },
            ],
        },
    ]
}


/// Part 1 of the catalogue, in catalogue order.
fn profiles_0() -> (r: Vec<Profile>)
    ensures
        profile_views(r@) == catalogue_0(),
        r@.len() == 10,
{
    proof {
        reveal(catalogue_0);
    }
    let p0 = profile(
                "codex-cli",
                &["codex"],
                vec![
                    b("Modelo", "model", "type:/model>>enter"),
                    b("Aprobaciones", "settings", "type:/approvals>>enter"),
                    b("Compactar", "archive", "type:/compact>>enter"),
                    b("Nuevo chat", "new", "type:/new>>enter"),
                    b("Copiar", "copy", "ctrl+shift+c"),
                    b("Pegar", "paste", "ctrl+shift+v"),
                    b("Aceptar", "accept", "enter"),
                    b("Rechazar", "close", "esc"),
                    b("Subir", "scrollup", "up"),
                    b("Bajar", "scrolldown", "down"),
                    b("Izquierda", "prev", "left"),
                    b("Derecha", "next", "right"),
                    bx("Revisar", "find", "type:/review>>enter"),
                    bx("Nueva línea", "text", "shift+enter"),
                    bx("Dictar", "mic", "dictate"),
                ],
            );
    assert(p0@.matches =~= catalogue_0()[0].matches);
    assert(p0@.buttons =~= catalogue_0()[0].buttons);
    let p1 = profile(
                "gemini-cli",
                &["gemini"],
                vec![
                    b("Modelo", "model", "type:/model>>enter"),
                    b("Agentes", "people", "type:/agents>>enter"),
                    b("MCP", "link", "type:/mcp reload>>enter"),
                    b("Limpiar", "delete", "ctrl+l"),
                    b("Copiar", "copy", "ctrl+shift+c"),
                    b("Pegar", "paste", "ctrl+shift+v"),
                    b("Aceptar", "accept", "enter"),
                    b("Rechazar", "close", "esc"),
                    b("Subir", "scrollup", "up"),
                    b("Bajar", "scrolldown", "down"),
                    b("Izquierda", "prev", "left"),
                    b("Derecha", "next", "right"),
                    bx("Memoria", "history", "type:/memory reload>>enter"),
                    bx("Nueva línea", "text", "shift+enter"),
                    bx("Dictar", "mic", "dictate"),
                ],
            );
    assert(p1@.matches =~= catalogue_0()[1].matches);
    assert(p1@.buttons =~= catalogue_0()[1].buttons);
    let p2 = profile(
                "aider",
                &["aider"],
                vec![
                    b("Modelo", "model", "prompt:Modelo=type:/model {}>>enter"),
                    b(
                        "Esfuerzo",
                        "effort",
                        "prompt:Esfuerzo=type:/reasoning-effort {}>>enter",
                    ),
                    b("Arquitecto", "model", "type:/architect>>enter"),
                    b("Código", "terminal", "type:/code>>enter"),
                    b("Deshacer", "undo", "type:/undo>>enter"),
                    b("Diferencias", "find", "type:/diff>>enter"),
                    b("Aceptar", "accept", "enter"),
                    b("Rechazar", "close", "esc"),
                    b("Subir", "scrollup", "up"),
                    b("Bajar", "scrolldown", "down"),
                    b("Izquierda", "prev", "left"),
                    b("Derecha", "next", "right"),
                    bx("Preguntar", "comment", "type:/ask>>enter"),
                    bx("Commit", "save", "type:/commit>>enter"),
                    bx("Copiar", "copy", "type:/copy>>enter"),
                    bx("Dictar", "mic", "dictate"),
                ],
            );
    assert(p2@.matches =~= catalogue_0()[2].matches);
    assert(p2@.buttons =~= catalogue_0()[2].buttons);
    let p3 = profile(
                "codex-desktop",
                &["codex"],
                vec![
                    b("Modelo", "model", "ctrl+shift+m"),
                    b("Esfuerzo -", "zoomout", "ctrl+alt+shift+k"),
                    b("Esfuerzo +", "zoomin", "ctrl+alt+shift+i"),
                    b("Velocidad", "bolt", "ctrl+alt+shift+f"),
                    b("Deshacer", "undo", "ctrl+z"),
                    b("Revisar", "find", "ctrl+shift+g"),
                    b("Aceptar", "accept", "enter"),
                    b("Rechazar", "close", "esc"),
                    b("Subir", "scrollup", "up"),
                    b("Bajar", "scrolldown", "down"),
                    b("Izquierda", "prev", "left"),
                    b("Derecha", "next", "right"),
                    bx("Anterior", "prev", "shift+tab"),
                    bx("Siguiente", "next", "tab"),
                    bx("Seleccionar", "accept", "enter"),
                    bx("Cancelar", "close", "esc"),
                    bx("Nueva línea", "text", "shift+enter"),
                    bx("Dictar", "mic", "ctrl+shift+d"),
                ],
            );
    assert(p3@.matches =~= catalogue_0()[3].matches);
    assert(p3@.buttons =~= catalogue_0()[3].buttons);
    let p4 = profile(
                "lm-studio",
                &["lm studio", "lmstudio"],
                vec![
                    gap(),
                    gap(),
                    b("Dictar", "mic", "dictate"),
                    b("Nueva línea", "text", "shift+enter"),
                    b("Copiar", "copy", "ctrl+c"),
                    b("Pegar", "paste", "ctrl+v"),
                    b("Enviar", "send", "enter"),
                    b("Detener", "close", "esc"),
                    b("Subir", "scrollup", "up"),
                    b("Bajar", "scrolldown", "down"),
                    b("Izquierda", "prev", "left"),
                    b("Derecha", "next", "right"),
                ],
            );
    assert(p4@.matches =~= catalogue_0()[4].matches);
    assert(p4@.buttons =~= catalogue_0()[4].buttons);
    let p5 = profile(
                "gsheets",
                &["google sheets", "hojas de cálculo"],
                vec![
                    b("Negrita", "bold", "ctrl+b"),
                    b("Buscar", "find", "ctrl+f"),
                    b("Deshacer", "undo", "ctrl+z"),
                    b("Rehacer", "redo", "ctrl+y"),
                    b("Copiar", "copy", "ctrl+c"),
                    b("Pegar", "paste", "ctrl+v"),
                    bx("Cursiva", "italic", "ctrl+i"),
                    bx("Subrayado", "underline", "ctrl+u"),
                    bx("Cortar", "cut", "ctrl+x"),
                    bx("Imprimir", "print", "ctrl+p"),
                    bx("Dictar", "mic", "dictate"),
                ],
            );
    assert(p5@.matches =~= catalogue_0()[5].matches);
    assert(p5@.buttons =~= catalogue_0()[5].buttons);
    let p6 = profile(
                "gdocs",
                &["google docs", "documentos de google"],
                vec![
                    b("Negrita", "bold", "ctrl+b"),
                    b("Buscar", "find", "ctrl+f"),
                    b("Deshacer", "undo", "ctrl+z"),
                    b("Copiar", "copy", "ctrl+c"),
                    b("Pegar", "paste", "ctrl+v"),
                    bx("Cursiva", "italic", "ctrl+i"),
                    bx("Subrayado", "underline", "ctrl+u"),
                    bx("Enlace", "link", "ctrl+k"),
                    bx("Rehacer", "redo", "ctrl+y"),
                    bx("Imprimir", "print", "ctrl+p"),
                    bx("Sel. todo", "selectall", "ctrl+a"),
                    bxd("Eliminar", "delete", "delete"),
                    bx("Dictar", "mic", "dictate"),
                ],
            );
    assert(p6@.matches =~= catalogue_0()[6].matches);
    assert(p6@.buttons =~= catalogue_0()[6].buttons);
    let p7 = profile(
                "gdrive",
                &["google drive", "mi unidad"],
                vec![
                    b("Buscar", "find", "ctrl+f"),
                    b("Nueva pestaña", "new", "ctrl+t"),
                    b("Copiar", "copy", "ctrl+c"),
                    b("Pegar", "paste", "ctrl+v"),
                    bx("Nueva carpeta", "newfolder", "shift+f"),
                    bx("Renombrar", "rename", "n"),
                    bx("Sel. todo", "selectall", "ctrl+a"),
                    bxd("Eliminar", "delete", "delete"),
                ],
            );
    assert(p7@.matches =~= catalogue_0()[7].matches);
    assert(p7@.buttons =~= catalogue_0()[7].buttons);
    let p8 = profile(
                "gmail",
                &["gmail"],
                vec![
                    b(
                        "Atajos Gmail",
                        "settings",
                        "picker:Activar atajos=?>>tab>>enter;Abrir configuración=open:https://mail.google.com/mail/u/0/#settings/general;Ver estado=?",
                    ),
                    b("Redactar", "new", "c"),
                    b("Buscar", "find", "/"),
                    b("Responder", "reply", "r"),
                    b("Archivar", "archive", "e"),
                    bx("Resp. todos", "replyall", "a"),
                    bx("Reenviar", "forward", "f"),
                    bx("Eliminar", "delete", "#"),
                    bx("Destacar", "star", "s"),
                    bx("Enviar", "send", "ctrl+enter"),
                    bx("Dictar", "mic", "dictate"),
                ],
            );
    assert(p8@.matches =~= catalogue_0()[8].matches);
    assert(p8@.buttons =~= catalogue_0()[8].buttons);
    let p9 = profile(
                "youtube",
                &["youtube"],
                vec![
                    b("Play/Pausa", "play", "k"),
                    b("Silenciar", "mute", "m"),
                    b("Pantalla completa", "video", "f"),
                    bx("Adelante", "redo", "l"),
                    bx("Atrás", "undo", "j"),
                    bx("Siguiente", "redo", "shift+n"),
                    bx("Subtítulos", "text", "c"),
                    bx("Teatro", "fullscreen", "t"),
                ],
            );
    assert(p9@.matches =~= catalogue_0()[9].matches);
    assert(p9@.buttons =~= catalogue_0()[9].buttons);
    let r = vec![p0, p1, p2, p3, p4, p5, p6, p7, p8, p9];
    assert(profile_views(r@) =~= catalogue_0());
    r
}

/// Part 2 of the catalogue, by contents.
#[verifier::opaque]
pub open spec fn catalogue_1() -> Seq<ProfileView> {
    seq![
        ProfileView {
            id: "word"@,
            matches: seq!["word"@],
            buttons: seq![
                ButtonView { label: "Guardar"@, icon: "save"@, action: "ctrl+s"@, danger: false, recommended: true },
                ButtonView { label: "Negrita"@, icon: "bold"@, action: "ctrl+b"@, danger: false, recommended: true },
                ButtonView { label: "Buscar"@, icon: "find"@, action: "ctrl+f"@, danger: false, recommended: true },
                ButtonView { label: "Deshacer"@, icon: "undo"@, action: "ctrl+z"@, danger: false, recommended: true },
                ButtonView { label: "Copiar"@, icon: "copy"@, action: "ctrl+c"@, danger: false, recommended: true },
                ButtonView { label: "Pegar"@, icon: "paste"@, action: "ctrl+v"@, danger: false, recommended: true },
                ButtonView { label: "Cursiva"@, icon: "italic"@, action: "ctrl+i"@, danger: false, recommended: false },
                ButtonView { label: "Subrayado"@, icon: "underline"@, action: "ctrl+u"@, danger: false, recommended: false },
                ButtonView { label: "Enlace"@, icon: "link"@, action: "ctrl+k"@, danger: false, recommended: false },
                ButtonView { label: "Rehacer"@, icon: "redo"@, action: "ctrl+y"@, danger: false, recommended: false },
                ButtonView { label: "Imprimir"@, icon: "print"@, action: "ctrl+p"@, danger: false, recommended: false },
                ButtonView { label: "Sel. todo"@, icon: "selectall"@, action: "ctrl+a"@, danger: false, recommended: false },
                ButtonView { label: "Eliminar"@, icon: "delete"@, action: "delete"@, danger: true, recommended: false },
                ButtonView { label: "Dictar"@, icon: "mic"@, action: "dictate"@, danger: false, recommended: false },
            ],
        },
        ProfileView {
            id: "excel"@,
            matches: seq!["excel"@],
            buttons: seq![
                ButtonView { label: "Guardar"@, icon: "save"@, action: "ctrl+s"@, danger: false, recommended: true },
                ButtonView { label: "Buscar"@, icon: "find"@, action: "ctrl+f"@, danger: false, recommended: true },
                ButtonView { label: "Deshacer"@, icon: "undo"@, action: "ctrl+z"@, danger: false, recommended: true },
                ButtonView { label: "Rehacer"@, icon: "redo"@, action: "ctrl+y"@, danger: false, recommended: true },
                ButtonView { label: "Copiar"@, icon: "copy"@, action: "ctrl+c"@, danger: false, recommended: true },
                ButtonView { label: "Pegar"@, icon: "paste"@, action: "ctrl+v"@, danger: false, recommended: true },
                ButtonView { label: "Negrita"@, icon: "bold"@, action: "ctrl+b"@, danger: false, recommended: false },
                ButtonView { label: "Cursiva"@, icon: "italic"@, action: "ctrl+i"@, danger: false, recommended: false },
                ButtonView { label: "Autosuma"@, icon: "sum"@, action: "alt+="@, danger: false, recommended: false },
                ButtonView { label: "Filtro"@, icon: "filter"@, action: "ctrl+shift+l"@, danger: false, recommended: false },
                ButtonView { label: "Imprimir"@, icon: "print"@, action: "ctrl+p"@, danger: false, recommended: false },
                ButtonView { label: "Dictar"@, icon: "mic"@, action: "dictate"@, danger: false, recommended: false },
            ],
        },
        ProfileView {
            id: "powerpoint"@,
            matches: seq!["powerpoint"@],
            buttons: seq![
                ButtonView { label: "Siguiente"@, icon: "next"@, action: "right"@, danger: false, recommended: true },
                ButtonView { label: "Anterior"@, icon: "prev"@, action: "left"@, danger: false, recommended: true },
                ButtonView { label: "Presentar"@, icon: "play"@, action: "f5"@, danger: false, recommended: true },
                ButtonView { label: "Negro"@, icon: "dark"@, action: "b"@, danger: false, recommended: true },
                ButtonView { label: "Guardar"@, icon: "save"@, action: "ctrl+s"@, danger: false, recommended: true },
                ButtonView { label: "Deshacer"@, icon: "undo"@, action: "ctrl+z"@, danger: false, recommended: true },
                ButtonView { label: "Blanco"@, icon: "light"@, action: "w"@, danger: false, recommended: false },
                ButtonView { label: "Desde actual"@, icon: "play"@, action: "shift+f5"@, danger: false, recommended: false },
                ButtonView { label: "Nueva diap."@, icon: "new"@, action: "ctrl+m"@, danger: false, recommended: false },
                ButtonView { label: "Copiar"@, icon: "copy"@, action: "ctrl+c"@, danger: false, recommended: false },
                ButtonView { label: "Pegar"@, icon: "paste"@, action: "ctrl+v"@, danger: false, recommended: false },
                ButtonView { label: "Duplicar"@, icon: "duplicate"@, action: "ctrl+d"@, danger: false, recommended: false },
                ButtonView { label: "Negrita"@, icon: "bold"@, action: "ctrl+b"@, danger: false, recommended: false },
                ButtonView { label: "Imprimir"@, icon: "print"@, action: "ctrl+p"@, danger: false, recommended: false },
            ],
        },
        ProfileView {
            id: "outlook"@,
            matches: seq!["outlook"@],
            buttons: seq![
                ButtonView { label: "Nuevo correo"@, icon: "new"@, action: "ctrl+n"@, danger: false, recommended: true },
                ButtonView { label: "Responder"@, icon: "reply"@, action: "ctrl+r"@, danger: false, recommended: true },
                ButtonView { label: "Enviar"@, icon: "send"@, action: "ctrl+enter"@, danger: false, recommended: true },
                ButtonView { label: "Buscar"@, icon: "find"@, action: "ctrl+e"@, danger: false, recommended: true },
                ButtonView { label: "Resp. todos"@, icon: "replyall"@, action: "ctrl+shift+r"@, danger: false, recommended: false },
                ButtonView { label: "Reenviar"@, icon: "forward"@, action: "ctrl+f"@, danger: false, recommended: false },
                ButtonView { label: "Eliminar"@, icon: "delete"@, action: "ctrl+d"@, danger: false, recommended: false },
                ButtonView { label: "Calendario"@, icon: "calendar"@, action: "ctrl+2"@, danger: false, recommended: false },
                ButtonView { label: "Dictar"@, icon: "mic"@, action: "dictate"@, danger: false, recommended: false },
            ],
        },
        ProfileView {
            id: "acrobat"@,
            matches: seq!["acrobat"@],
            buttons: seq![
                ButtonView { label: "Buscar"@, icon: "find"@, action: "ctrl+f"@, danger: false, recommended: true },
                ButtonView { label: "Imprimir"@, icon: "print"@, action: "ctrl+p"@, danger: false, recommended: true },
                ButtonView { label: "Guardar"@, icon: "save"@, action: "ctrl+s"@, danger: false, recommended: true },
                ButtonView { label: "Copiar"@, icon: "copy"@, action: "ctrl+c"@, danger: false, recommended: true },
                ButtonView { label: "Zoom +"@, icon: "zoomin"@, action: "ctrl+add"@, danger: false, recommended: false },
                ButtonView { label: "Zoom -"@, icon: "zoomout"@, action: "ctrl+subtract"@, danger: false, recommended: false },
                ButtonView { label: "Pant. completa"@, icon: "fullscreen"@, action: "ctrl+l"@, danger: false, recommended: false },
            ],
        },
        ProfileView {
            id: "photoshop"@,
            matches: seq!["photoshop"@],
            buttons: seq![
                ButtonView { label: "Deshacer"@, icon: "undo"@, action: "ctrl+z"@, danger: false, recommended: true },
                ButtonView { label: "Pincel"@, icon: "brush"@, action: "b"@, danger: false, recommended: true },
                ButtonView { label: "Mover"@, icon: "move"@, action: "v"@, danger: false, recommended: true },
                ButtonView { label: "Guardar"@, icon: "save"@, action: "ctrl+s"@, danger: false, recommended: true },
                ButtonView { label: "Copiar"@, icon: "copy"@, action: "ctrl+c"@, danger: false, recommended: true },
                ButtonView { label: "Pegar"@, icon: "paste"@, action: "ctrl+v"@, danger: false, recommended: true },
                ButtonView { label: "Texto"@, icon: "text"@, action: "t"@, danger: false, recommended: false },
                ButtonView { label: "Borrador"@, icon: "eraser"@, action: "e"@, danger: false, recommended: false },
                ButtonView { label: "Recortar"@, icon: "crop"@, action: "c"@, danger: false, recommended: false },
                ButtonView { label: "Zoom"@, icon: "zoomin"@, action: "z"@, danger: false, recommended: false },
                ButtonView { label: "Rehacer"@, icon: "redo"@, action: "ctrl+shift+z"@, danger: false, recommended: false },
            ],
        },
        ProfileView {
            id: "illustrator"@,
            matches: seq!["illustrator"@],
            buttons: seq![
                ButtonView { label: "Deshacer"@, icon: "undo"@, action: "ctrl+z"@, danger: false, recommended: true },
                ButtonView { label: "Selección"@, icon: "cursor"@, action: "v"@, danger: false, recommended: true },
                ButtonView { label: "Guardar"@, icon: "save"@, action: "ctrl+s"@, danger: false, recommended: true },
                ButtonView { label: "Copiar"@, icon: "copy"@, action: "ctrl+c"@, danger: false, recommended: true },
                ButtonView { label: "Pegar"@, icon: "paste"@, action: "ctrl+v"@, danger: false, recommended: true },
                ButtonView { label: "Pluma"@, icon: "pencil"@, action: "p"@, danger: false, recommended: false },
                ButtonView { label: "Texto"@, icon: "text"@, action: "t"@, danger: false, recommended: false },
                ButtonView { label: "Rectángulo"@, icon: "rect"@, action: "m"@, danger: false, recommended: false },
                ButtonView { label: "Zoom"@, icon: "zoomin"@, action: "z"@, danger: false, recommended: false },
                ButtonView { label: "Rehacer"@, icon: "redo"@, action: "ctrl+shift+z"@, danger: false, recommended: false },
            ],
        },
        ProfileView {
            id: "premiere"@,
            matches: seq!["premiere"@],
            buttons: seq![
                ButtonView { label: "Play/Pausa"@, icon: "play"@, action: "k"@, danger: false, recommended: true },
                ButtonView { label: "Cortar"@, icon: "cut"@, action: "c"@, danger: false, recommended: true },
                ButtonView { label: "Selección"@, icon: "cursor"@, action: "v"@, danger: false, recommended: true },
                ButtonView { label: "Guardar"@, icon: "save"@, action: "ctrl+s"@, danger: false, recommended: true },
                ButtonView { label: "Deshacer"@, icon: "undo"@, action: "ctrl+z"@, danger: false, recommended: true },
                ButtonView { label: "Entrada"@, icon: "login"@, action: "i"@, danger: false, recommended: false },
                ButtonView { label: "Salida"@, icon: "logout"@, action: "o"@, danger: false, recommended: false },
                ButtonView { label: "Marcador"@, icon: "star"@, action: "m"@, danger: false, recommended: false },
                ButtonView { label: "Exportar"@, icon: "upload"@, action: "ctrl+m"@, danger: false, recommended: false },
                ButtonView { label: "Rehacer"@, icon: "redo"@, action: "ctrl+shift+z"@, danger: false, recommended: false },
            ],
        },
        ProfileView {
            id: "figma"@,
            matches: seq!["figma"@],
            buttons: seq![
                ButtonView { label: "Mover"@, icon: "move"@, action: "v"@, danger: false, recommended: true },
                ButtonView { label: "Marco"@, icon: "frame"@, action: "f"@, danger: false, recommended: true },
                ButtonView { label: "Comentar"@, icon: "comment"@, action: "c"@, danger: false, recommended: true },
                ButtonView { label: "Copiar"@, icon: "copy"@, action: "ctrl+c"@, danger: false, recommended: true },
                ButtonView { label: "Pegar"@, icon: "paste"@, action: "ctrl+v"@, danger: false, recommended: true },
                ButtonView { label: "Deshacer"@, icon: "undo"@, action: "ctrl+z"@, danger: false, recommended: true },
                ButtonView { label: "Texto"@, icon: "text"@, action: "t"@, danger: false, recommended: false },
                ButtonView { label: "Rectángulo"@, icon: "rect"@, action: "r"@, danger: false, recommended: false },
                ButtonView { label: "Lápiz"@, icon: "pencil"@, action: "p"@, danger: false, recommended: false },
                ButtonView { label: "Duplicar"@, icon: "duplicate"@, action: "ctrl+d"@, danger: false, recommended: false },
                ButtonView { label: "Rehacer"@, icon: "redo"@, action: "ctrl+shift+z"@, danger: false, recommended: false },
            ],
        },
        ProfileView {
            id: "slack"@,
            matches: seq!["slack"@],
            buttons: seq![
                ButtonView { label: "Saltar a"@, icon: "find"@, action: "ctrl+k"@, danger: false, recommended: true },
                ButtonView { label: "Negrita"@, icon: "bold"@, action: "ctrl+b"@, danger: false, recommended: true },
                ButtonView { label: "Hilos"@, icon: "comment"@, action: "ctrl+shift+t"@, danger: false, recommended: true },
                ButtonView { label: "Copiar"@, icon: "copy"@, action: "ctrl+c"@, danger: false, recommended: true },
                ButtonView { label: "Cursiva"@, icon: "italic"@, action: "ctrl+i"@, danger: false, recommended: false },
                ButtonView { label: "Buscar"@, icon: "find"@, action: "ctrl+f"@, danger: false, recommended: false },
                ButtonView { label: "Subir archivo"@, icon: "upload"@, action: "ctrl+u"@, danger: false, recommended: false },
                ButtonView { label: "Editar último"@, icon: "redo"@, action: "ctrl+up"@, danger: false, recommended: false },
                ButtonView { label: "Dictar"@, icon: "mic"@, action: "dictate"@, danger: false, recommended: false },
            ],
        },
    ]
}


/// Part 2 of the catalogue, in catalogue order.
fn profiles_1() -> (r: Vec<Profile>)
    ensures
        profile_views(r@) == catalogue_1(),
        r@.len() == 10,
{
    proof {
        reveal(catalogue_1);
    }
    let p0 = profile(
                "word",
                &["word"],
                vec![
                    b("Guardar", "save", "ctrl+s"),
                    b("Negrita", "bold", "ctrl+b"),
                    b("Buscar", "find", "ctrl+f"),
                    b("Deshacer", "undo", "ctrl+z"),
                    b("Copiar", "copy", "ctrl+c"),
                    b("Pegar", "paste", "ctrl+v"),
                    bx("Cursiva", "italic", "ctrl+i"),
                    bx("Subrayado", "underline", "ctrl+u"),
                    bx("Enlace", "link", "ctrl+k"),
                    bx("Rehacer", "redo", "ctrl+y"),
                    bx("Imprimir", "print", "ctrl+p"),
                    bx("Sel. todo", "selectall", "ctrl+a"),
                    bxd("Eliminar", "delete", "delete"),
                    bx("Dictar", "mic", "dictate"),
                ],
            );
    assert(p0@.matches =~= catalogue_1()[0].matches);
    assert(p0@.buttons =~= catalogue_1()[0].buttons);
    let p1 = profile(
                "excel",
                &["excel"],
                vec![
                    b("Guardar", "save", "ctrl+s"),
                    b("Buscar", "find", "ctrl+f"),
                    b("Deshacer", "undo", "ctrl+z"),
                    b("Rehacer", "redo", "ctrl+y"),
                    b("Copiar", "copy", "ctrl+c"),
                    b("Pegar", "paste", "ctrl+v"),
                    bx("Negrita", "bold", "ctrl+b"),
                    bx("Cursiva", "italic", "ctrl+i"),
                    bx("Autosuma", "sum", "alt+="),
                    bx("Filtro", "filter", "ctrl+shift+l"),
                    bx("Imprimir", "print", "ctrl+p"),
                    bx("Dictar", "mic", "dictate"),
                ],
            );
    assert(p1@.matches =~= catalogue_1()[1].matches);
    assert(p1@.buttons =~= catalogue_1()[1].buttons);
    let p2 = profile(
                "powerpoint",
                &["powerpoint"],
                vec![
                    b("Siguiente", "next", "right"),
                    b("Anterior", "prev", "left"),
                    b("Presentar", "play", "f5"),
                    b("Negro", "dark", "b"),
                    b("Guardar", "save", "ctrl+s"),
                    b("Deshacer", "undo", "ctrl+z"),
                    bx("Blanco", "light", "w"),
                    bx("Desde actual", "play", "shift+f5"),
                    bx("Nueva diap.", "new", "ctrl+m"),
                    bx("Copiar", "copy", "ctrl+c"),
                    bx("Pegar", "paste", "ctrl+v"),
                    bx("Duplicar", "duplicate", "ctrl+d"),
                    bx("Negrita", "bold", "ctrl+b"),
                    bx("Imprimir", "print", "ctrl+p"),
                ],
            );
    assert(p2@.matches =~= catalogue_1()[2].matches);
    assert(p2@.buttons =~= catalogue_1()[2].buttons);
    let p3 = profile(
                "outlook",
                &["outlook"],
                vec![
                    b("Nuevo correo", "new", "ctrl+n"),
                    b("Responder", "reply", "ctrl+r"),
                    b("Enviar", "send", "ctrl+enter"),
                    b("Buscar", "find", "ctrl+e"),
                    bx("Resp. todos", "replyall", "ctrl+shift+r"),
                    bx("Reenviar", "forward", "ctrl+f"),
                    bx("Eliminar", "delete", "ctrl+d"),
                    bx("Calendario", "calendar", "ctrl+2"),
                    bx("Dictar", "mic", "dictate"),
                ],
            );
    assert(p3@.matches =~= catalogue_1()[3].matches);
    assert(p3@.buttons =~= catalogue_1()[3].buttons);
    let p4 = profile(
                "acrobat",
                &["acrobat"],
                vec![
                    b("Buscar", "find", "ctrl+f"),
                    b("Imprimir", "print", "ctrl+p"),
                    b("Guardar", "save", "ctrl+s"),
                    b("Copiar", "copy", "ctrl+c"),
                    bx("Zoom +", "zoomin", "ctrl+add"),
                    bx("Zoom -", "zoomout", "ctrl+subtract"),
                    bx("Pant. completa", "fullscreen", "ctrl+l"),
                ],
            );
    assert(p4@.matches =~= catalogue_1()[4].matches);
    assert(p4@.buttons =~= catalogue_1()[4].buttons);
    let p5 = profile(
                "photoshop",
                &["photoshop"],
                vec![
                    b("Deshacer", "undo", "ctrl+z"),
                    b("Pincel", "brush", "b"),
                    b("Mover", "move", "v"),
                    b("Guardar", "save", "ctrl+s"),
                    b("Copiar", "copy", "ctrl+c"),
                    b("Pegar", "paste", "ctrl+v"),
                    bx("Texto", "text", "t"),
                    bx("Borrador", "eraser", "e"),
                    bx("Recortar", "crop", "c"),
                    bx("Zoom", "zoomin", "z"),
                    bx("Rehacer", "redo", "ctrl+shift+z"),
                ],
            );
    assert(p5@.matches =~= catalogue_1()[5].matches);
    assert(p5@.buttons =~= catalogue_1()[5].buttons);
    let p6 = profile(
                "illustrator",
                &["illustrator"],
                vec![
                    b("Deshacer", "undo", "ctrl+z"),
                    b("Selección", "cursor", "v"),
                    b("Guardar", "save", "ctrl+s"),
                    b("Copiar", "copy", "ctrl+c"),
                    b("Pegar", "paste", "ctrl+v"),
                    bx("Pluma", "pencil", "p"),
                    bx("Texto", "text", "t"),
                    bx("Rectángulo", "rect", "m"),
                    bx("Zoom", "zoomin", "z"),
                    bx("Rehacer", "redo", "ctrl+shift+z"),
                ],
            );
    assert(p6@.matches =~= catalogue_1()[6].matches);
    assert(p6@.buttons =~= catalogue_1()[6].buttons);
    let p7 = profile(
                "premiere",
                &["premiere"],
                vec![
                    b("Play/Pausa", "play", "k"),
                    b("Cortar", "cut", "c"),
                    b("Selección", "cursor", "v"),
                    b("Guardar", "save", "ctrl+s"),
                    b("Deshacer", "undo", "ctrl+z"),
                    bx("Entrada", "login", "i"),
                    bx("Salida", "logout", "o"),
                    bx("Marcador", "star", "m"),
                    bx("Exportar", "upload", "ctrl+m"),
                    bx("Rehacer", "redo", "ctrl+shift+z"),
                ],
            );
    assert(p7@.matches =~= catalogue_1()[7].matches);
    assert(p7@.buttons =~= catalogue_1()[7].buttons);
    let p8 = profile(
                "figma",
                &["figma"],
                vec![
                    b("Mover", "move", "v"),
                    b("Marco", "frame", "f"),
                    b("Comentar", "comment", "c"),
                    b("Copiar", "copy", "ctrl+c"),
                    b("Pegar", "paste", "ctrl+v"),
                    b("Deshacer", "undo", "ctrl+z"),
                    bx("Texto", "text", "t"),
                    bx("Rectángulo", "rect", "r"),
                    bx("Lápiz", "pencil", "p"),
                    bx("Duplicar", "duplicate", "ctrl+d"),
                    bx("Rehacer", "redo", "ctrl+shift+z"),
                ],
            );
    assert(p8@.matches =~= catalogue_1()[8].matches);
    assert(p8@.buttons =~= catalogue_1()[8].buttons);
    let p9 = profile(
                "slack",
                &["slack"],
                vec![
                    b("Saltar a", "find", "ctrl+k"),
                    b("Negrita", "bold", "ctrl+b"),
                    b("Hilos", "comment", "ctrl+shift+t"),
                    b("Copiar", "copy", "ctrl+c"),
                    bx("Cursiva", "italic", "ctrl+i"),
                    bx("Buscar", "find", "ctrl+f"),
                    bx("Subir archivo", "upload", "ctrl+u"),
                    bx("Editar último", "redo", "ctrl+up"),
                    bx("Dictar", "mic", "dictate"),
                ],
            );
    assert(p9@.matches =~= catalogue_1()[9].matches);
    assert(p9@.buttons =~= catalogue_1()[9].buttons);
    let r = vec![p0, p1, p2, p3, p4, p5, p6, p7, p8, p9];
    assert(profile_views(r@) =~= catalogue_1());
    r
}

/// Part 3 of the catalogue, by contents.
#[verifier::opaque]
pub open spec fn catalogue_2() -> Seq<ProfileView> {
    seq![
        ProfileView {
            id: "discord"@,
            matches: seq!["discord"@],
            buttons: seq![
                ButtonView { label: "Silenciar"@, icon: "mute"@, action: "ctrl+shift+m"@, danger: false, recommended: true },
                ButtonView { label: "Audio"@, icon: "video"@, action: "ctrl+shift+d"@, danger: false, recommended: true },
                ButtonView { label: "Buscar"@, icon: "find"@, action: "ctrl+f"@, danger: false, recommended: true },
                ButtonView { label: "Sgte canal"@, icon: "next"@, action: "alt+down"@, danger: false, recommended: false },
                ButtonView { label: "Canal ant."@, icon: "prev"@, action: "alt+up"@, danger: false, recommended: false },
                ButtonView { label: "Marcar leído"@, icon: "close"@, action: "escape"@, danger: false, recommended: false },
                ButtonView { label: "Dictar"@, icon: "mic"@, action: "dictate"@, danger: false, recommended: false },
            ],
        },
        ProfileView {
            id: "teams"@,
            matches: seq!["teams"@],
            buttons: seq![
                ButtonView { label: "Silenciar"@, icon: "mic"@, action: "ctrl+shift+m"@, danger: false, recommended: true },
                ButtonView { label: "Cámara"@, icon: "video"@, action: "ctrl+shift+o"@, danger: false, recommended: true },
                ButtonView { label: "Compartir"@, icon: "share"@, action: "ctrl+shift+e"@, danger: false, recommended: true },
                ButtonView { label: "Colgar"@, icon: "close"@, action: "ctrl+shift+h"@, danger: false, recommended: true },
                ButtonView { label: "Levantar mano"@, icon: "hand"@, action: "ctrl+shift+k"@, danger: false, recommended: false },
                ButtonView { label: "Chat"@, icon: "comment"@, action: "ctrl+2"@, danger: false, recommended: false },
                ButtonView { label: "Aceptar"@, icon: "play"@, action: "ctrl+shift+s"@, danger: false, recommended: false },
                ButtonView { label: "Rechazar"@, icon: "close"@, action: "ctrl+shift+d"@, danger: false, recommended: false },
            ],
        },
        ProfileView {
            id: "zoom"@,
            matches: seq!["zoom"@],
            buttons: seq![
                ButtonView { label: "Silenciar"@, icon: "mic"@, action: "alt+a"@, danger: false, recommended: true },
                ButtonView { label: "Vídeo"@, icon: "video"@, action: "alt+v"@, danger: false, recommended: true },
                ButtonView { label: "Compartir"@, icon: "share"@, action: "alt+s"@, danger: false, recommended: true },
                ButtonView { label: "Salir"@, icon: "close"@, action: "alt+q"@, danger: false, recommended: true },
                ButtonView { label: "Levantar mano"@, icon: "hand"@, action: "alt+y"@, danger: false, recommended: false },
                ButtonView { label: "Chat"@, icon: "comment"@, action: "alt+h"@, danger: false, recommended: false },
                ButtonView { label: "Grabar"@, icon: "record"@, action: "alt+r"@, danger: false, recommended: false },
                ButtonView { label: "Pant. completa"@, icon: "fullscreen"@, action: "alt+f"@, danger: false, recommended: false },
                ButtonView { label: "Participantes"@, icon: "people"@, action: "alt+u"@, danger: false, recommended: false },
            ],
        },
        ProfileView {
            id: "notion"@,
            matches: seq!["notion"@],
            buttons: seq![
                ButtonView { label: "Buscar"@, icon: "find"@, action: "ctrl+p"@, danger: false, recommended: true },
                ButtonView { label: "Negrita"@, icon: "bold"@, action: "ctrl+b"@, danger: false, recommended: true },
                ButtonView { label: "Deshacer"@, icon: "undo"@, action: "ctrl+z"@, danger: false, recommended: true },
                ButtonView { label: "Copiar"@, icon: "copy"@, action: "ctrl+c"@, danger: false, recommended: true },
                ButtonView { label: "Pegar"@, icon: "paste"@, action: "ctrl+v"@, danger: false, recommended: true },
                ButtonView { label: "Cursiva"@, icon: "italic"@, action: "ctrl+i"@, danger: false, recommended: false },
                ButtonView { label: "Nueva página"@, icon: "new"@, action: "ctrl+n"@, danger: false, recommended: false },
                ButtonView { label: "Enlace"@, icon: "link"@, action: "ctrl+k"@, danger: false, recommended: false },
                ButtonView { label: "Rehacer"@, icon: "redo"@, action: "ctrl+shift+z"@, danger: false, recommended: false },
                ButtonView { label: "Dictar"@, icon: "mic"@, action: "dictate"@, danger: false, recommended: false },
            ],
        },
        ProfileView {
            id: "spotify"@,
            matches: seq!["spotify"@],
            buttons: seq![
                ButtonView { label: "Play/Pausa"@, icon: "play"@, action: "space"@, danger: false, recommended: true },
                ButtonView { label: "Siguiente"@, icon: "next"@, action: "ctrl+right"@, danger: false, recommended: true },
                ButtonView { label: "Anterior"@, icon: "prev"@, action: "ctrl+left"@, danger: false, recommended: true },
                ButtonView { label: "+ Volumen"@, icon: "vol"@, action: "ctrl+up"@, danger: false, recommended: false },
                ButtonView { label: "- Volumen"@, icon: "vol"@, action: "ctrl+down"@, danger: false, recommended: false },
                ButtonView { label: "Aleatorio"@, icon: "shuffle"@, action: "ctrl+s"@, danger: false, recommended: false },
                ButtonView { label: "Repetir"@, icon: "repeat"@, action: "ctrl+r"@, danger: false, recommended: false },
                ButtonView { label: "Buscar"@, icon: "find"@, action: "ctrl+l"@, danger: false, recommended: false },
            ],
        },
        ProfileView {
            id: "vlc"@,
            matches: seq!["vlc"@],
            buttons: seq![
                ButtonView { label: "Play/Pausa"@, icon: "play"@, action: "space"@, danger: false, recommended: true },
                ButtonView { label: "Pant. completa"@, icon: "fullscreen"@, action: "f"@, danger: false, recommended: true },
                ButtonView { label: "Silenciar"@, icon: "mute"@, action: "m"@, danger: false, recommended: true },
                ButtonView { label: "+ Volumen"@, icon: "vol"@, action: "ctrl+up"@, danger: false, recommended: true },
                ButtonView { label: "- Volumen"@, icon: "vol"@, action: "ctrl+down"@, danger: false, recommended: true },
                ButtonView { label: "Siguiente"@, icon: "next"@, action: "n"@, danger: false, recommended: false },
                ButtonView { label: "Anterior"@, icon: "prev"@, action: "p"@, danger: false, recommended: false },
                ButtonView { label: "Subtítulos"@, icon: "subtitles"@, action: "v"@, danger: false, recommended: false },
                ButtonView { label: "Captura"@, icon: "screenshot"@, action: "shift+s"@, danger: false, recommended: false },
            ],
        },
        ProfileView {
            id: "editor"@,
            matches: seq!["code"@, "devenv"@, "visual studio"@, "cursor"@],
            buttons: seq![
                ButtonView { label: "Guardar"@, icon: "save"@, action: "ctrl+s"@, danger: false, recommended: true },
                ButtonView { label: "Buscar"@, icon: "find"@, action: "ctrl+f"@, danger: false, recommended: true },
                ButtonView { label: "Paleta"@, icon: "new"@, action: "ctrl+shift+p"@, danger: false, recommended: true },
                ButtonView { label: "Deshacer"@, icon: "undo"@, action: "ctrl+z"@, danger: false, recommended: true },
                ButtonView { label: "Copiar"@, icon: "copy"@, action: "ctrl+c"@, danger: false, recommended: true },
                ButtonView { label: "Pegar"@, icon: "paste"@, action: "ctrl+v"@, danger: false, recommended: true },
                ButtonView { label: "Reemplazar"@, icon: "replace"@, action: "ctrl+h"@, danger: false, recommended: false },
                ButtonView { label: "Comentar"@, icon: "comment"@, action: "ctrl+/"@, danger: false, recommended: false },
                ButtonView { label: "Terminal"@, icon: "terminal"@, action: "ctrl+`"@, danger: false, recommended: false },
                ButtonView { label: "Ir a línea"@, icon: "find"@, action: "ctrl+g"@, danger: false, recommended: false },
                ButtonView { label: "Formato"@, icon: "format"@, action: "shift+alt+f"@, danger: false, recommended: false },
                ButtonView { label: "Sel. todo"@, icon: "selectall"@, action: "ctrl+a"@, danger: false, recommended: false },
                ButtonView { label: "Eliminar"@, icon: "delete"@, action: "delete"@, danger: true, recommended: false },
                ButtonView { label: "Dictar"@, icon: "mic"@, action: "dictate"@, danger: false, recommended: false },
            ],
        },
        ProfileView {
            id: "shell-pwsh"@,
            matches: seq!["powershell"@, "pwsh"@],
            buttons: seq![
                ButtonView { label: "Listar"@, icon: "folder"@, action: "type:ls -Force>>enter"@, danger: false, recommended: true },
                ButtonView { label: "Subir nivel"@, icon: "back"@, action: "type:cd ..>>enter"@, danger: false, recommended: true },
                ButtonView { label: "Limpiar"@, icon: "eraser"@, action: "type:cls>>enter"@, danger: false, recommended: true },
                ButtonView { label: "Anterior"@, icon: "scrollup"@, action: "up"@, danger: false, recommended: true },
                ButtonView { label: "Ejecutar"@, icon: "play"@, action: "enter"@, danger: false, recommended: true },
                ButtonView { label: "Cancelar"@, icon: "close"@, action: "ctrl+c"@, danger: false, recommended: true },
                ButtonView { label: "Siguiente"@, icon: "scrolldown"@, action: "down"@, danger: false, recommended: false },
                ButtonView { label: "Dónde estoy"@, icon: "pin"@, action: "type:pwd>>enter"@, danger: false, recommended: false },
                ButtonView { label: "Autocompletar"@, icon: "tab"@, action: "tab"@, danger: false, recommended: false },
                ButtonView { label: "Git estado"@, icon: "find"@, action: "type:git status>>enter"@, danger: false, recommended: false },
                ButtonView { label: "Git pull"@, icon: "download"@, action: "type:git pull>>enter"@, danger: false, recommended: false },
                ButtonView { label: "Git push"@, icon: "upload"@, action: "type:git push>>enter"@, danger: false, recommended: false },
                ButtonView { label: "Git log"@, icon: "history"@, action: "type:git log --oneline -10>>enter"@, danger: false, recommended: false },
                ButtonView { label: "Git diff"@, icon: "replace"@, action: "type:git diff>>enter"@, danger: false, recommended: false },
                ButtonView { label: "Copiar"@, icon: "copy"@, action: "ctrl+shift+c"@, danger: false, recommended: false },
                ButtonView { label: "Pegar"@, icon: "paste"@, action: "ctrl+shift+v"@, danger: false, recommended: false },
                ButtonView { label: "Nueva carpeta"@, icon: "newfolder"@, action: "prompt:Nombre de la carpeta=type:mkdir {}>>enter"@, danger: false, recommended: false },
                ButtonView { label: "Dictar"@, icon: "mic"@, action: "dictate"@, danger: false, recommended: false },
            ],
        },
        ProfileView {
            id: "shell-cmd"@,
            matches: seq!["cmd.exe"@, "símbolo del sistema"@, "command prompt"@],
            buttons: seq![
                ButtonView { label: "Listar"@, icon: "folder"@, action: "type:dir /a>>enter"@, danger: false, recommended: true },
                ButtonView { label: "Subir nivel"@, icon: "back"@, action: "type:cd ..>>enter"@, danger: false, recommended: true },
                ButtonView { label: "Limpiar"@, icon: "eraser"@, action: "type:cls>>enter"@, danger: false, recommended: true },
                ButtonView { label: "Anterior"@, icon: "scrollup"@, action: "up"@, danger: false, recommended: true },
                ButtonView { label: "Ejecutar"@, icon: "play"@, action: "enter"@, danger: false, recommended: true },
                ButtonView { label: "Cancelar"@, icon: "close"@, action: "ctrl+c"@, danger: false, recommended: true },
                ButtonView { label: "Siguiente"@, icon: "scrolldown"@, action: "down"@, danger: false, recommended: false },
                ButtonView { label: "Dónde estoy"@, icon: "pin"@, action: "type:cd>>enter"@, danger: false, recommended: false },
                ButtonView { label: "Autocompletar"@, icon: "tab"@, action: "tab"@, danger: false, recommended: false },
                ButtonView { label: "Git estado"@, icon: "find"@, action: "type:git status>>enter"@, danger: false, recommended: false },
                ButtonView { label: "Git pull"@, icon: "download"@, action: "type:git pull>>enter"@, danger: false, recommended: false },
                ButtonView { label: "Git push"@, icon: "upload"@, action: "type:git push>>enter"@, danger: false, recommended: false },
                ButtonView { label: "Copiar"@, icon: "copy"@, action: "ctrl+shift+c"@, danger: false, recommended: false },
                ButtonView { label: "Pegar"@, icon: "paste"@, action: "ctrl+shift+v"@, danger: false, recommended: false },
                ButtonView { label: "Nueva carpeta"@, icon: "newfolder"@, action: "prompt:Nombre de la carpeta=type:md {}>>enter"@, danger: false, recommended: false },
                ButtonView { label: "Dictar"@, icon: "mic"@, action: "dictate"@, danger: false, recommended: false },
            ],
        },
        ProfileView {
            id: "shell-bash"@,
            matches: seq!["wsl"@, "ubuntu"@, "debian"@, "bash"@, "mingw"@],
            buttons: seq![
                ButtonView { label: "Listar"@, icon: "folder"@, action: "type:ls -lh>>enter"@, danger: false, recommended: true },
                ButtonView { label: "Subir nivel"@, icon: "back"@, action: "type:cd ..>>enter"@, danger: false, recommended: true },
                ButtonView { label: "Limpiar"@, icon: "eraser"@, action: "type:clear>>enter"@, danger: false, recommended: true },
                ButtonView { label: "Anterior"@, icon: "scrollup"@, action: "up"@, danger: false, recommended: true },
                ButtonView { label: "Ejecutar"@, icon: "play"@, action: "enter"@, danger: false, recommended: true },
                ButtonView { label: "Cancelar"@, icon: "close"@, action: "ctrl+c"@, danger: false, recommended: true },
                ButtonView { label: "Siguiente"@, icon: "scrolldown"@, action: "down"@, danger: false, recommended: false },
                ButtonView { label: "Dónde estoy"@, icon: "pin"@, action: "type:pwd>>enter"@, danger: false, recommended: false },
                ButtonView { label: "Autocompletar"@, icon: "tab"@, action: "tab"@, danger: false, recommended: false },
                ButtonView { label: "Carpeta anterior"@, icon: "undo"@, action: "type:cd ->>enter"@, danger: false, recommended: false },
                ButtonView { label: "Git estado"@, icon: "find"@, action: "type:git status>>enter"@, danger: false, recommended: false },
                ButtonView { label: "Git pull"@, icon: "download"@, action: "type:git pull>>enter"@, danger: false, recommended: false },
                ButtonView { label: "Git push"@, icon: "upload"@, action: "type:git push>>enter"@, danger: false, recommended: false },
                ButtonView { label: "Git log"@, icon: "history"@, action: "type:git log --oneline -10>>enter"@, danger: false, recommended: false },
                ButtonView { label: "Git diff"@, icon: "replace"@, action: "type:git diff>>enter"@, danger: false, recommended: false },
                ButtonView { label: "Copiar"@, icon: "copy"@, action: "ctrl+shift+c"@, danger: false, recommended: false },
                ButtonView { label: "Pegar"@, icon: "paste"@, action: "ctrl+shift+v"@, danger: false, recommended: false },
                ButtonView { label: "Nueva carpeta"@, icon: "newfolder"@, action: "prompt:Nombre de la carpeta=type:mkdir {}>>enter"@, danger: false, recommended: false },
                ButtonView { label: "Dictar"@, icon: "mic"@, action: "dictate"@, danger: false, recommended: false },
            ],
        },
    ]
}


/// Part 3 of the catalogue, in catalogue order.
fn profiles_2() -> (r: Vec<Profile>)
    ensures
        profile_views(r@) == catalogue_2(),
        r@.len() == 10,
{
    proof {
        reveal(catalogue_2);
    }
    let p0 = profile(
                "discord",
                &["discord"],
                vec![
                    b("Silenciar", "mute", "ctrl+shift+m"),
                    b("Audio", "video", "ctrl+shift+d"),
                    b("Buscar", "find", "ctrl+f"),
                    bx("Sgte canal", "next", "alt+down"),
                    bx("Canal ant.", "prev", "alt+up"),
                    bx("Marcar leído", "close", "escape"),
                    bx("Dictar", "mic", "dictate"),
                ],
            );
    assert(p0@.matches =~= catalogue_2()[0].matches);
    assert(p0@.buttons =~= catalogue_2()[0].buttons);
    let p1 = profile(
                "teams",
                &["teams"],
                vec![
                    b("Silenciar", "mic", "ctrl+shift+m"),
                    b("Cámara", "video", "ctrl+shift+o"),
                    b("Compartir", "share", "ctrl+shift+e"),
                    b("Colgar", "close", "ctrl+shift+h"),
                    bx("Levantar mano", "hand", "ctrl+shift+k"),
                    bx("Chat", "comment", "ctrl+2"),
                    bx("Aceptar", "play", "ctrl+shift+s"),
                    bx("Rechazar", "close", "ctrl+shift+d"),
                ],
            );
    assert(p1@.matches =~= catalogue_2()[1].matches);
    assert(p1@.buttons =~= catalogue_2()[1].buttons);
    let p2 = profile(
                "zoom",
                &["zoom"],
                vec![
                    b("Silenciar", "mic", "alt+a"),
                    b("Vídeo", "video", "alt+v"),
                    b("Compartir", "share", "alt+s"),
                    b("Salir", "close", "alt+q"),
                    bx("Levantar mano", "hand", "alt+y"),
                    bx("Chat", "comment", "alt+h"),
                    bx("Grabar", "record", "alt+r"),
                    bx("Pant. completa", "fullscreen", "alt+f"),
                    bx("Participantes", "people", "alt+u"),
                ],
            );
    assert(p2@.matches =~= catalogue_2()[2].matches);
    assert(p2@.buttons =~= catalogue_2()[2].buttons);
    let p3 = profile(
                "notion",
                &["notion"],
                vec![
                    b("Buscar", "find", "ctrl+p"),
                    b("Negrita", "bold", "ctrl+b"),
                    b("Deshacer", "undo", "ctrl+z"),
                    b("Copiar", "copy", "ctrl+c"),
                    b("Pegar", "paste", "ctrl+v"),
                    bx("Cursiva", "italic", "ctrl+i"),
                    bx("Nueva página", "new", "ctrl+n"),
                    bx("Enlace", "link", "ctrl+k"),
                    bx("Rehacer", "redo", "ctrl+shift+z"),
                    bx("Dictar", "mic", "dictate"),
                ],
            );
    assert(p3@.matches =~= catalogue_2()[3].matches);
    assert(p3@.buttons =~= catalogue_2()[3].buttons);
    let p4 = profile(
                "spotify",
                &["spotify"],
                vec![
                    b("Play/Pausa", "play", "space"),
                    b("Siguiente", "next", "ctrl+right"),
                    b("Anterior", "prev", "ctrl+left"),
                    bx("+ Volumen", "vol", "ctrl+up"),
                    bx("- Volumen", "vol", "ctrl+down"),
                    bx("Aleatorio", "shuffle", "ctrl+s"),
                    bx("Repetir", "repeat", "ctrl+r"),
                    bx("Buscar", "find", "ctrl+l"),
                ],
            );
    assert(p4@.matches =~= catalogue_2()[4].matches);
    assert(p4@.buttons =~= catalogue_2()[4].buttons);
    let p5 = profile(
                "vlc",
                &["vlc"],
                vec![
                    b("Play/Pausa", "play", "space"),
                    b("Pant. completa", "fullscreen", "f"),
                    b("Silenciar", "mute", "m"),
                    b("+ Volumen", "vol", "ctrl+up"),
                    b("- Volumen", "vol", "ctrl+down"),
                    bx("Siguiente", "next", "n"),
                    bx("Anterior", "prev", "p"),
                    bx("Subtítulos", "subtitles", "v"),
                    bx("Captura", "screenshot", "shift+s"),
                ],
            );
    assert(p5@.matches =~= catalogue_2()[5].matches);
    assert(p5@.buttons =~= catalogue_2()[5].buttons);
    let p6 = profile(
                "editor",
                &["code", "devenv", "visual studio", "cursor"],
                vec![
                    b("Guardar", "save", "ctrl+s"),
                    b("Buscar", "find", "ctrl+f"),
                    b("Paleta", "new", "ctrl+shift+p"),
                    b("Deshacer", "undo", "ctrl+z"),
                    b("Copiar", "copy", "ctrl+c"),
                    b("Pegar", "paste", "ctrl+v"),
                    bx("Reemplazar", "replace", "ctrl+h"),
                    bx("Comentar", "comment", "ctrl+/"),
                    bx("Terminal", "terminal", "ctrl+`"),
                    bx("Ir a línea", "find", "ctrl+g"),
                    bx("Formato", "format", "shift+alt+f"),
                    bx("Sel. todo", "selectall", "ctrl+a"),
                    bxd("Eliminar", "delete", "delete"),
                    bx("Dictar", "mic", "dictate"),
                ],
            );
    assert(p6@.matches =~= catalogue_2()[6].matches);
    assert(p6@.buttons =~= catalogue_2()[6].buttons);
    let p7 = profile(
                "shell-pwsh",
                &["powershell", "pwsh"],
                vec![
                    b("Listar", "folder", "type:ls -Force>>enter"),
                    b("Subir nivel", "back", "type:cd ..>>enter"),
                    b("Limpiar", "eraser", "type:cls>>enter"),
                    b("Anterior", "scrollup", "up"), 
                    b("Ejecutar", "play", "enter"),  
                    b("Cancelar", "close", "ctrl+c"),
                    bx("Siguiente", "scrolldown", "down"),
                    bx("Dónde estoy", "pin", "type:pwd>>enter"),
                    bx("Autocompletar", "tab", "tab"), 
                    bx("Git estado", "find", "type:git status>>enter"),
                    bx("Git pull", "download", "type:git pull>>enter"),
                    bx("Git push", "upload", "type:git push>>enter"),
                    bx("Git log", "history", "type:git log --oneline -10>>enter"),
                    bx("Git diff", "replace", "type:git diff>>enter"),
                    bx("Copiar", "copy", "ctrl+shift+c"),
                    bx("Pegar", "paste", "ctrl+shift+v"),
                    bx(
                        "Nueva carpeta",
                        "newfolder",
                        "prompt:Nombre de la carpeta=type:mkdir {}>>enter",
                    ),
                    bx("Dictar", "mic", "dictate"),
                ],
            );
    assert(p7@.matches =~= catalogue_2()[7].matches);
    assert(p7@.buttons =~= catalogue_2()[7].buttons);
    let p8 = profile(
                "shell-cmd",
                &["cmd.exe", "símbolo del sistema", "command prompt"],
                vec![
                    b("Listar", "folder", "type:dir /a>>enter"), 
                    b("Subir nivel", "back", "type:cd ..>>enter"),
                    b("Limpiar", "eraser", "type:cls>>enter"),
                    b("Anterior", "scrollup", "up"),
                    b("Ejecutar", "play", "enter"),
                    b("Cancelar", "close", "ctrl+c"),
                    bx("Siguiente", "scrolldown", "down"),
                    bx("Dónde estoy", "pin", "type:cd>>enter"), 
                    bx("Autocompletar", "tab", "tab"),
                    bx("Git estado", "find", "type:git status>>enter"),
                    bx("Git pull", "download", "type:git pull>>enter"),
                    bx("Git push", "upload", "type:git push>>enter"),
                    bx("Copiar", "copy", "ctrl+shift+c"),
                    bx("Pegar", "paste", "ctrl+shift+v"),
                    bx(
                        "Nueva carpeta",
                        "newfolder",
                        "prompt:Nombre de la carpeta=type:md {}>>enter",
                    ),
                    bx("Dictar", "mic", "dictate"),
                ],
            );
    assert(p8@.matches =~= catalogue_2()[8].matches);
    assert(p8@.buttons =~= catalogue_2()[8].buttons);
    let p9 = profile(
                "shell-bash",
                &["wsl", "ubuntu", "debian", "bash", "mingw"],
                vec![
                    b("Listar", "folder", "type:ls -lh>>enter"), 
                    b("Subir nivel", "back", "type:cd ..>>enter"),
                    b("Limpiar", "eraser", "type:clear>>enter"),
                    b("Anterior", "scrollup", "up"),
                    b("Ejecutar", "play", "enter"),
                    b("Cancelar", "close", "ctrl+c"),
                    bx("Siguiente", "scrolldown", "down"),
                    bx("Dónde estoy", "pin", "type:pwd>>enter"),
                    bx("Autocompletar", "tab", "tab"),
                    bx("Carpeta anterior", "undo", "type:cd ->>enter"), 
                    bx("Git estado", "find", "type:git status>>enter"),
                    bx("Git pull", "download", "type:git pull>>enter"),
                    bx("Git push", "upload", "type:git push>>enter"),
                    bx("Git log", "history", "type:git log --oneline -10>>enter"),
                    bx("Git diff", "replace", "type:git diff>>enter"),
                    bx("Copiar", "copy", "ctrl+shift+c"),
                    bx("Pegar", "paste", "ctrl+shift+v"),
                    bx(
                        "Nueva carpeta",
                        "newfolder",
                        "prompt:Nombre de la carpeta=type:mkdir {}>>enter",
                    ),
                    bx("Dictar", "mic", "dictate"),
                ],
            );
    assert(p9@.matches =~= catalogue_2()[9].matches);
    assert(p9@.buttons =~= catalogue_2()[9].buttons);
    let r = vec![p0, p1, p2, p3, p4, p5, p6, p7, p8, p9];
    assert(profile_views(r@) =~= catalogue_2());
    r
}

/// Part 4 of the catalogue, by contents.
#[verifier::opaque]
pub open spec fn catalogue_3() -> Seq<ProfileView> {
    seq![
        ProfileView {
            id: "terminal"@,
            matches: seq!["windowsterminal"@, "terminal"@, "warp"@, "conhost"@],
            buttons: seq![
                ButtonView { label: "Copiar"@, icon: "copy"@, action: "ctrl+shift+c"@, danger: false, recommended: true },
                ButtonView { label: "Pegar"@, icon: "paste"@, action: "ctrl+shift+v"@, danger: false, recommended: true },
                ButtonView { label: "Nueva pestaña"@, icon: "new"@, action: "ctrl+shift+t"@, danger: false, recommended: true },
                ButtonView { label: "Buscar"@, icon: "find"@, action: "ctrl+f"@, danger: false, recommended: true },
                ButtonView { label: "Cerrar pestaña"@, icon: "close"@, action: "ctrl+shift+w"@, danger: false, recommended: false },
                ButtonView { label: "Dividir"@, icon: "new"@, action: "alt+shift+d"@, danger: false, recommended: false },
                ButtonView { label: "Nueva ventana"@, icon: "new"@, action: "ctrl+shift+n"@, danger: false, recommended: false },
                ButtonView { label: "Panel sgte"@, icon: "redo"@, action: "ctrl+tab"@, danger: false, recommended: false },
            ],
        },
        ProfileView {
            id: "notepadpp"@,
            matches: seq!["notepad++"@],
            buttons: seq![
                ButtonView { label: "Guardar"@, icon: "save"@, action: "ctrl+s"@, danger: false, recommended: true },
                ButtonView { label: "Buscar"@, icon: "find"@, action: "ctrl+f"@, danger: false, recommended: true },
                ButtonView { label: "Reemplazar"@, icon: "replace"@, action: "ctrl+h"@, danger: false, recommended: true },
                ButtonView { label: "Deshacer"@, icon: "undo"@, action: "ctrl+z"@, danger: false, recommended: true },
                ButtonView { label: "Copiar"@, icon: "copy"@, action: "ctrl+c"@, danger: false, recommended: true },
                ButtonView { label: "Pegar"@, icon: "paste"@, action: "ctrl+v"@, danger: false, recommended: true },
                ButtonView { label: "Ir a línea"@, icon: "find"@, action: "ctrl+g"@, danger: false, recommended: false },
                ButtonView { label: "Duplicar línea"@, icon: "new"@, action: "ctrl+d"@, danger: false, recommended: false },
                ButtonView { label: "Comentar"@, icon: "comment"@, action: "ctrl+q"@, danger: false, recommended: false },
                ButtonView { label: "Imprimir"@, icon: "print"@, action: "ctrl+p"@, danger: false, recommended: false },
                ButtonView { label: "Guardar todo"@, icon: "save"@, action: "ctrl+shift+s"@, danger: false, recommended: false },
                ButtonView { label: "Sel. todo"@, icon: "selectall"@, action: "ctrl+a"@, danger: false, recommended: false },
                ButtonView { label: "Eliminar"@, icon: "delete"@, action: "delete"@, danger: true, recommended: false },
                ButtonView { label: "Dictar"@, icon: "mic"@, action: "dictate"@, danger: false, recommended: false },
            ],
        },
        ProfileView {
            id: "explorer"@,
            matches: seq!["explorador"@, "file explorer"@, "explorer"@],
            buttons: seq![
                ButtonView { label: "Copiar"@, icon: "copy"@, action: "ctrl+c"@, danger: false, recommended: true },
                ButtonView { label: "Pegar"@, icon: "paste"@, action: "ctrl+v"@, danger: false, recommended: true },
                ButtonView { label: "Nueva carpeta"@, icon: "newfolder"@, action: "ctrl+shift+n"@, danger: false, recommended: true },
                ButtonView { label: "Renombrar"@, icon: "rename"@, action: "f2"@, danger: false, recommended: true },
                ButtonView { label: "Cortar"@, icon: "cut"@, action: "ctrl+x"@, danger: false, recommended: false },
                ButtonView { label: "Atrás"@, icon: "undo"@, action: "alt+left"@, danger: false, recommended: false },
                ButtonView { label: "Subir nivel"@, icon: "redo"@, action: "alt+up"@, danger: false, recommended: false },
                ButtonView { label: "Propiedades"@, icon: "settings"@, action: "alt+enter"@, danger: false, recommended: false },
                ButtonView { label: "Buscar"@, icon: "find"@, action: "ctrl+f"@, danger: false, recommended: false },
                ButtonView { label: "Sel. todo"@, icon: "selectall"@, action: "ctrl+a"@, danger: false, recommended: false },
                ButtonView { label: "Eliminar"@, icon: "delete"@, action: "delete"@, danger: true, recommended: false },
            ],
        },
        ProfileView {
            id: "chatgpt"@,
            matches: seq!["chatgpt"@],
            buttons: seq![
                ButtonView { label: "Nuevo chat"@, icon: "new"@, action: "ctrl+shift+o"@, danger: false, recommended: true },
                ButtonView { label: "Barra lateral"@, icon: "tab"@, action: "ctrl+shift+s"@, danger: false, recommended: true },
                ButtonView { label: "Copiar"@, icon: "copy"@, action: "ctrl+c"@, danger: false, recommended: true },
                ButtonView { label: "Pegar"@, icon: "paste"@, action: "ctrl+v"@, danger: false, recommended: true },
                ButtonView { label: "Borrar chat"@, icon: "delete"@, action: "ctrl+shift+backspace"@, danger: false, recommended: false },
                ButtonView { label: "Enfocar entrada"@, icon: "text"@, action: "shift+escape"@, danger: false, recommended: false },
                ButtonView { label: "Dictar"@, icon: "mic"@, action: "dictate"@, danger: false, recommended: false },
            ],
        },
        ProfileView {
            id: "gcalendar"@,
            matches: seq!["google calendar"@],
            buttons: seq![
                ButtonView { label: "Crear"@, icon: "new"@, action: "c"@, danger: false, recommended: true },
                ButtonView { label: "Hoy"@, icon: "home"@, action: "t"@, danger: false, recommended: true },
                ButtonView { label: "Buscar"@, icon: "find"@, action: "/"@, danger: false, recommended: true },
                ButtonView { label: "Semana"@, icon: "tab"@, action: "w"@, danger: false, recommended: true },
                ButtonView { label: "Día"@, icon: "tab"@, action: "d"@, danger: false, recommended: false },
                ButtonView { label: "Mes"@, icon: "tab"@, action: "m"@, danger: false, recommended: false },
                ButtonView { label: "Agenda"@, icon: "apps"@, action: "a"@, danger: false, recommended: false },
                ButtonView { label: "Año"@, icon: "tab"@, action: "y"@, danger: false, recommended: false },
            ],
        },
        ProfileView {
            id: "onenote"@,
            matches: seq!["onenote"@],
            buttons: seq![
                ButtonView { label: "Nueva página"@, icon: "new"@, action: "ctrl+n"@, danger: false, recommended: true },
                ButtonView { label: "Negrita"@, icon: "bold"@, action: "ctrl+b"@, danger: false, recommended: true },
                ButtonView { label: "Buscar"@, icon: "find"@, action: "ctrl+e"@, danger: false, recommended: true },
                ButtonView { label: "Deshacer"@, icon: "undo"@, action: "ctrl+z"@, danger: false, recommended: true },
                ButtonView { label: "Copiar"@, icon: "copy"@, action: "ctrl+c"@, danger: false, recommended: true },
                ButtonView { label: "Pegar"@, icon: "paste"@, action: "ctrl+v"@, danger: false, recommended: true },
                ButtonView { label: "Cursiva"@, icon: "italic"@, action: "ctrl+i"@, danger: false, recommended: false },
                ButtonView { label: "Subrayado"@, icon: "underline"@, action: "ctrl+u"@, danger: false, recommended: false },
                ButtonView { label: "Resaltar"@, icon: "highlight"@, action: "ctrl+shift+h"@, danger: false, recommended: false },
                ButtonView { label: "Imprimir"@, icon: "print"@, action: "ctrl+p"@, danger: false, recommended: false },
            ],
        },
        ProfileView {
            id: "thunderbird"@,
            matches: seq!["thunderbird"@],
            buttons: seq![
                ButtonView { label: "Nuevo"@, icon: "new"@, action: "ctrl+n"@, danger: false, recommended: true },
                ButtonView { label: "Responder"@, icon: "reply"@, action: "ctrl+r"@, danger: false, recommended: true },
                ButtonView { label: "Reenviar"@, icon: "forward"@, action: "ctrl+l"@, danger: false, recommended: true },
                ButtonView { label: "Buscar"@, icon: "find"@, action: "ctrl+shift+k"@, danger: false, recommended: true },
                ButtonView { label: "Resp. todos"@, icon: "replyall"@, action: "ctrl+shift+r"@, danger: false, recommended: false },
                ButtonView { label: "Enviar"@, icon: "send"@, action: "ctrl+enter"@, danger: false, recommended: false },
                ButtonView { label: "Eliminar"@, icon: "delete"@, action: "delete"@, danger: false, recommended: false },
                ButtonView { label: "Archivar"@, icon: "archive"@, action: "a"@, danger: false, recommended: false },
            ],
        },
        ProfileView {
            id: "sublime"@,
            matches: seq!["sublime"@],
            buttons: seq![
                ButtonView { label: "Guardar"@, icon: "save"@, action: "ctrl+s"@, danger: false, recommended: true },
                ButtonView { label: "Buscar"@, icon: "find"@, action: "ctrl+f"@, danger: false, recommended: true },
                ButtonView { label: "Paleta"@, icon: "new"@, action: "ctrl+shift+p"@, danger: false, recommended: true },
                ButtonView { label: "Ir a"@, icon: "find"@, action: "ctrl+p"@, danger: false, recommended: true },
                ButtonView { label: "Deshacer"@, icon: "undo"@, action: "ctrl+z"@, danger: false, recommended: true },
                ButtonView { label: "Copiar"@, icon: "copy"@, action: "ctrl+c"@, danger: false, recommended: true },
                ButtonView { label: "Pegar"@, icon: "paste"@, action: "ctrl+v"@, danger: false, recommended: true },
                ButtonView { label: "Reemplazar"@, icon: "replace"@, action: "ctrl+h"@, danger: false, recommended: false },
                ButtonView { label: "Comentar"@, icon: "comment"@, action: "ctrl+/"@, danger: false, recommended: false },
                ButtonView { label: "Duplicar línea"@, icon: "duplicate"@, action: "ctrl+shift+d"@, danger: false, recommended: false },
                ButtonView { label: "Ir a línea"@, icon: "find"@, action: "ctrl+g"@, danger: false, recommended: false },
                ButtonView { label: "Sel. todo"@, icon: "selectall"@, action: "ctrl+a"@, danger: false, recommended: false },
                ButtonView { label: "Eliminar"@, icon: "delete"@, action: "delete"@, danger: true, recommended: false },
                ButtonView { label: "Dictar"@, icon: "mic"@, action: "dictate"@, danger: false, recommended: false },
            ],
        },
        ProfileView {
            id: "obsidian"@,
            matches: seq!["obsidian"@],
            buttons: seq![
                ButtonView { label: "Nueva nota"@, icon: "new"@, action: "ctrl+n"@, danger: false, recommended: true },
                ButtonView { label: "Cambiador"@, icon: "find"@, action: "ctrl+o"@, danger: false, recommended: true },
                ButtonView { label: "Editar/Ver"@, icon: "redo"@, action: "ctrl+e"@, danger: false, recommended: true },
                ButtonView { label: "Paleta"@, icon: "new"@, action: "ctrl+p"@, danger: false, recommended: true },
                ButtonView { label: "Buscar"@, icon: "find"@, action: "ctrl+shift+f"@, danger: false, recommended: false },
                ButtonView { label: "Negrita"@, icon: "bold"@, action: "ctrl+b"@, danger: false, recommended: false },
                ButtonView { label: "Cursiva"@, icon: "italic"@, action: "ctrl+i"@, danger: false, recommended: false },
                ButtonView { label: "Enlace"@, icon: "link"@, action: "ctrl+k"@, danger: false, recommended: false },
            ],
        },
        ProfileView {
            id: "gimp"@,
            matches: seq!["gimp"@],
            buttons: seq![
                ButtonView { label: "Deshacer"@, icon: "undo"@, action: "ctrl+z"@, danger: false, recommended: true },
                ButtonView { label: "Pincel"@, icon: "brush"@, action: "p"@, danger: false, recommended: true },
                ButtonView { label: "Borrador"@, icon: "eraser"@, action: "shift+e"@, danger: false, recommended: true },
                ButtonView { label: "Guardar"@, icon: "save"@, action: "ctrl+s"@, danger: false, recommended: true },
                ButtonView { label: "Copiar"@, icon: "copy"@, action: "ctrl+c"@, danger: false, recommended: true },
                ButtonView { label: "Pegar"@, icon: "paste"@, action: "ctrl+v"@, danger: false, recommended: true },
                ButtonView { label: "Lápiz"@, icon: "pencil"@, action: "n"@, danger: false, recommended: false },
                ButtonView { label: "Texto"@, icon: "text"@, action: "t"@, danger: false, recommended: false },
                ButtonView { label: "Rellenar"@, icon: "fill"@, action: "shift+b"@, danger: false, recommended: false },
                ButtonView { label: "Exportar"@, icon: "upload"@, action: "ctrl+e"@, danger: false, recommended: false },
                ButtonView { label: "Rehacer"@, icon: "redo"@, action: "ctrl+y"@, danger: false, recommended: false },
            ],
        },
    ]
}


/// Part 4 of the catalogue, in catalogue order.
fn profiles_3() -> (r: Vec<Profile>)
    ensures
        profile_views(r@) == catalogue_3(),
        r@.len() == 10,
{
    proof {
        reveal(catalogue_3);
    }
    let p0 = profile(
                "terminal",
                &["windowsterminal", "terminal", "warp", "conhost"],
                vec![
                    b("Copiar", "copy", "ctrl+shift+c"),
                    b("Pegar", "paste", "ctrl+shift+v"),
                    b("Nueva pestaña", "new", "ctrl+shift+t"),
                    b("Buscar", "find", "ctrl+f"),
                    bx("Cerrar pestaña", "close", "ctrl+shift+w"),
                    bx("Dividir", "new", "alt+shift+d"),
                    bx("Nueva ventana", "new", "ctrl+shift+n"),
                    bx("Panel sgte", "redo", "ctrl+tab"),
                ],
            );
    assert(p0@.matches =~= catalogue_3()[0].matches);
    assert(p0@.buttons =~= catalogue_3()[0].buttons);
    let p1 = profile(
                "notepadpp",
                &["notepad++"],
                vec![
                    b("Guardar", "save", "ctrl+s"),
                    b("Buscar", "find", "ctrl+f"),
                    b("Reemplazar", "replace", "ctrl+h"),
                    b("Deshacer", "undo", "ctrl+z"),
                    b("Copiar", "copy", "ctrl+c"),
                    b("Pegar", "paste", "ctrl+v"),
                    bx("Ir a línea", "find", "ctrl+g"),
                    bx("Duplicar línea", "new", "ctrl+d"),
                    bx("Comentar", "comment", "ctrl+q"),
                    bx("Imprimir", "print", "ctrl+p"),
                    bx("Guardar todo", "save", "ctrl+shift+s"),
                    bx("Sel. todo", "selectall", "ctrl+a"),
                    bxd("Eliminar", "delete", "delete"),
                    bx("Dictar", "mic", "dictate"),
                ],
            );
    assert(p1@.matches =~= catalogue_3()[1].matches);
    assert(p1@.buttons =~= catalogue_3()[1].buttons);
    let p2 = profile(
                "explorer",
                &["explorador", "file explorer", "explorer"],
                vec![
                    b("Copiar", "copy", "ctrl+c"),
                    b("Pegar", "paste", "ctrl+v"),
                    b("Nueva carpeta", "newfolder", "ctrl+shift+n"),
                    b("Renombrar", "rename", "f2"),
                    bx("Cortar", "cut", "ctrl+x"),
                    bx("Atrás", "undo", "alt+left"),
                    bx("Subir nivel", "redo", "alt+up"),
                    bx("Propiedades", "settings", "alt+enter"),
                    bx("Buscar", "find", "ctrl+f"),
                    bx("Sel. todo", "selectall", "ctrl+a"),
                    bxd("Eliminar", "delete", "delete"),
                ],
            );
    assert(p2@.matches =~= catalogue_3()[2].matches);
    assert(p2@.buttons =~= catalogue_3()[2].buttons);
    let p3 = profile(
                "chatgpt",
                &["chatgpt"],
                vec![
                    b("Nuevo chat", "new", "ctrl+shift+o"),
                    b("Barra lateral", "tab", "ctrl+shift+s"),
                    b("Copiar", "copy", "ctrl+c"),
                    b("Pegar", "paste", "ctrl+v"),
                    bx("Borrar chat", "delete", "ctrl+shift+backspace"),
                    bx("Enfocar entrada", "text", "shift+escape"),
                    bx("Dictar", "mic", "dictate"),
                ],
            );
    assert(p3@.matches =~= catalogue_3()[3].matches);
    assert(p3@.buttons =~= catalogue_3()[3].buttons);
    let p4 = profile(
                "gcalendar",
                &["google calendar"],
                vec![
                    b("Crear", "new", "c"),
                    b("Hoy", "home", "t"),
                    b("Buscar", "find", "/"),
                    b("Semana", "tab", "w"),
                    bx("Día", "tab", "d"),
                    bx("Mes", "tab", "m"),
                    bx("Agenda", "apps", "a"),
                    bx("Año", "tab", "y"),
                ],
            );
    assert(p4@.matches =~= catalogue_3()[4].matches);
    assert(p4@.buttons =~= catalogue_3()[4].buttons);
    let p5 = profile(
                "onenote",
                &["onenote"],
                vec![
                    b("Nueva página", "new", "ctrl+n"),
                    b("Negrita", "bold", "ctrl+b"),
                    b("Buscar", "find", "ctrl+e"),
                    b("Deshacer", "undo", "ctrl+z"),
                    b("Copiar", "copy", "ctrl+c"),
                    b("Pegar", "paste", "ctrl+v"),
                    bx("Cursiva", "italic", "ctrl+i"),
                    bx("Subrayado", "underline", "ctrl+u"),
                    bx("Resaltar", "highlight", "ctrl+shift+h"),
                    bx("Imprimir", "print", "ctrl+p"),
                ],
            );
    assert(p5@.matches =~= catalogue_3()[5].matches);
    assert(p5@.buttons =~= catalogue_3()[5].buttons);
    let p6 = profile(
                "thunderbird",
                &["thunderbird"],
                vec![
                    b("Nuevo", "new", "ctrl+n"),
                    b("Responder", "reply", "ctrl+r"),
                    b("Reenviar", "forward", "ctrl+l"),
                    b("Buscar", "find", "ctrl+shift+k"),
                    bx("Resp. todos", "replyall", "ctrl+shift+r"),
                    bx("Enviar", "send", "ctrl+enter"),
                    bx("Eliminar", "delete", "delete"),
                    bx("Archivar", "archive", "a"),
                ],
            );
    assert(p6@.matches =~= catalogue_3()[6].matches);
    assert(p6@.buttons =~= catalogue_3()[6].buttons);
    let p7 = profile(
                "sublime",
                &["sublime"],
                vec![
                    b("Guardar", "save", "ctrl+s"),
                    b("Buscar", "find", "ctrl+f"),
                    b("Paleta", "new", "ctrl+shift+p"),
                    b("Ir a", "find", "ctrl+p"),
                    b("Deshacer", "undo", "ctrl+z"),
                    b("Copiar", "copy", "ctrl+c"),
                    b("Pegar", "paste", "ctrl+v"),
                    bx("Reemplazar", "replace", "ctrl+h"),
                    bx("Comentar", "comment", "ctrl+/"),
                    bx("Duplicar línea", "duplicate", "ctrl+shift+d"),
                    bx("Ir a línea", "find", "ctrl+g"),
                    bx("Sel. todo", "selectall", "ctrl+a"),
                    bxd("Eliminar", "delete", "delete"),
                    bx("Dictar", "mic", "dictate"),
                ],
            );
    assert(p7@.matches =~= catalogue_3()[7].matches);
    assert(p7@.buttons =~= catalogue_3()[7].buttons);
    let p8 = profile(
                "obsidian",
                &["obsidian"],
                vec![
                    b("Nueva nota", "new", "ctrl+n"),
                    b("Cambiador", "find", "ctrl+o"),
                    b("Editar/Ver", "redo", "ctrl+e"),
                    b("Paleta", "new", "ctrl+p"),
                    bx("Buscar", "find", "ctrl+shift+f"),
                    bx("Negrita", "bold", "ctrl+b"),
                    bx("Cursiva", "italic", "ctrl+i"),
                    bx("Enlace", "link", "ctrl+k"),
                ],
            );
    assert(p8@.matches =~= catalogue_3()[8].matches);
    assert(p8@.buttons =~= catalogue_3()[8].buttons);
    let p9 = profile(
                "gimp",
                &["gimp"],
                vec![
                    b("Deshacer", "undo", "ctrl+z"),
                    b("Pincel", "brush", "p"),
                    b("Borrador", "eraser", "shift+e"),
                    b("Guardar", "save", "ctrl+s"),
                    b("Copiar", "copy", "ctrl+c"),
                    b("Pegar", "paste", "ctrl+v"),
                    bx("Lápiz", "pencil", "n"),
                    bx("Texto", "text", "t"),
                    bx("Rellenar", "fill", "shift+b"),
                    bx("Exportar", "upload", "ctrl+e"),
                    bx("Rehacer", "redo", "ctrl+y"),
                ],
            );
    assert(p9@.matches =~= catalogue_3()[9].matches);
    assert(p9@.buttons =~= catalogue_3()[9].buttons);
    let r = vec![p0, p1, p2, p3, p4, p5, p6, p7, p8, p9];
    assert(profile_views(r@) =~= catalogue_3());
    r
}

/// Part 5 of the catalogue, by contents.
#[verifier::opaque]
pub open spec fn catalogue_4() -> Seq<ProfileView> {
    seq![
        ProfileView {
            id: "canva"@,
            matches: seq!["canva"@],
            buttons: seq![
                ButtonView { label: "Texto"@, icon: "text"@, action: "t"@, danger: false, recommended: true },
                ButtonView { label: "Deshacer"@, icon: "undo"@, action: "ctrl+z"@, danger: false, recommended: true },
                ButtonView { label: "Duplicar"@, icon: "duplicate"@, action: "ctrl+d"@, danger: false, recommended: true },
                ButtonView { label: "Copiar"@, icon: "copy"@, action: "ctrl+c"@, danger: false, recommended: true },
                ButtonView { label: "Pegar"@, icon: "paste"@, action: "ctrl+v"@, danger: false, recommended: true },
                ButtonView { label: "Rehacer"@, icon: "redo"@, action: "ctrl+y"@, danger: false, recommended: false },
                ButtonView { label: "Rectángulo"@, icon: "rect"@, action: "r"@, danger: false, recommended: false },
                ButtonView { label: "Círculo"@, icon: "ellipse"@, action: "c"@, danger: false, recommended: false },
                ButtonView { label: "Línea"@, icon: "line"@, action: "l"@, danger: false, recommended: false },
                ButtonView { label: "Agrupar"@, icon: "group"@, action: "ctrl+g"@, danger: false, recommended: false },
            ],
        },
        ProfileView {
            id: "paint"@,
            matches: seq!["paint"@],
            buttons: seq![
                ButtonView { label: "Lápiz"@, icon: "pencil"@, action: "uia:Lápiz"@, danger: false, recommended: true },
                ButtonView { label: "Relleno"@, icon: "fill"@, action: "uia:Relleno"@, danger: false, recommended: true },
                ButtonView { label: "Texto"@, icon: "text"@, action: "uia:Texto"@, danger: false, recommended: true },
                ButtonView { label: "Borrador"@, icon: "eraser"@, action: "uia:Borrador"@, danger: false, recommended: true },
                ButtonView { label: "Selector color"@, icon: "colorpick"@, action: "uia:Selector de colores"@, danger: false, recommended: true },
                ButtonView { label: "Rectángulo"@, icon: "rect"@, action: "uia:Rectángulo"@, danger: false, recommended: true },
                ButtonView { label: "Elipse"@, icon: "ellipse"@, action: "uia:Elipse"@, danger: false, recommended: true },
                ButtonView { label: "Línea"@, icon: "line"@, action: "uia:Línea"@, danger: false, recommended: true },
                ButtonView { label: "Lupa"@, icon: "zoomin"@, action: "uia:Lupa"@, danger: false, recommended: false },
                ButtonView { label: "Recortar"@, icon: "crop"@, action: "uia:Recortar"@, danger: false, recommended: false },
                ButtonView { label: "Girar dcha."@, icon: "rotate"@, action: "uia:Girar>>Girar 90º a la derecha"@, danger: false, recommended: false },
                ButtonView { label: "Girar izq."@, icon: "rotate"@, action: "uia:Girar>>Girar 90º a la izquierda"@, danger: false, recommended: false },
                ButtonView { label: "Deshacer"@, icon: "undo"@, action: "ctrl+z"@, danger: false, recommended: false },
                ButtonView { label: "Rehacer"@, icon: "redo"@, action: "ctrl+y"@, danger: false, recommended: false },
                ButtonView { label: "Guardar"@, icon: "save"@, action: "ctrl+s"@, danger: false, recommended: false },
                ButtonView { label: "Copiar"@, icon: "copy"@, action: "ctrl+c"@, danger: false, recommended: false },
                ButtonView { label: "Pegar"@, icon: "paste"@, action: "ctrl+v"@, danger: false, recommended: false },
                ButtonView { label: "Colores"@, icon: "palette"@, action: "colorpicker:Negro=000000;Blanco=FFFFFF;Gris=7F7F7F;Rojo=ED1C24;\
              Naranja=FF7F27;Amarillo=FFF200;Verde=22B14C;Turquesa=00A2E8;Añil=3F48CC;\
              Púrpura=A349A4;Marrón=B97A57;Rosa=FFAEC9"@, danger: false, recommended: true },
            ],
        },
        ProfileView {
            id: "davinci"@,
            matches: seq!["davinci"@, "resolve"@],
            buttons: seq![
                ButtonView { label: "Play/Pausa"@, icon: "play"@, action: "space"@, danger: false, recommended: true },
                ButtonView { label: "Entrada"@, icon: "login"@, action: "i"@, danger: false, recommended: true },
                ButtonView { label: "Salida"@, icon: "logout"@, action: "o"@, danger: false, recommended: true },
                ButtonView { label: "Cortar"@, icon: "cut"@, action: "ctrl+b"@, danger: false, recommended: true },
                ButtonView { label: "Deshacer"@, icon: "undo"@, action: "ctrl+z"@, danger: false, recommended: true },
                ButtonView { label: "Copiar"@, icon: "copy"@, action: "ctrl+c"@, danger: false, recommended: false },
                ButtonView { label: "Pegar"@, icon: "paste"@, action: "ctrl+v"@, danger: false, recommended: false },
                ButtonView { label: "Rehacer"@, icon: "redo"@, action: "ctrl+shift+z"@, danger: false, recommended: false },
            ],
        },
        ProfileView {
            id: "audacity"@,
            matches: seq!["audacity"@],
            buttons: seq![
                ButtonView { label: "Reproducir"@, icon: "play"@, action: "space"@, danger: false, recommended: true },
                ButtonView { label: "Grabar"@, icon: "record"@, action: "r"@, danger: false, recommended: true },
                ButtonView { label: "Deshacer"@, icon: "undo"@, action: "ctrl+z"@, danger: false, recommended: true },
                ButtonView { label: "Cortar"@, icon: "cut"@, action: "ctrl+x"@, danger: false, recommended: true },
                ButtonView { label: "Copiar"@, icon: "copy"@, action: "ctrl+c"@, danger: false, recommended: true },
                ButtonView { label: "Pegar"@, icon: "paste"@, action: "ctrl+v"@, danger: false, recommended: false },
                ButtonView { label: "Silencio"@, icon: "mute"@, action: "ctrl+l"@, danger: false, recommended: false },
                ButtonView { label: "Rehacer"@, icon: "redo"@, action: "ctrl+y"@, danger: false, recommended: false },
            ],
        },
        ProfileView {
            id: "jetbrains"@,
            matches: seq!["intellij"@, "pycharm"@, "webstorm"@, "phpstorm"@, "rider"@, "goland"@, "clion"@, "datagrip"@, "android studio"@],
            buttons: seq![
                ButtonView { label: "Buscar"@, icon: "find"@, action: "ctrl+f"@, danger: false, recommended: true },
                ButtonView { label: "Comentar"@, icon: "comment"@, action: "ctrl+/"@, danger: false, recommended: true },
                ButtonView { label: "Reformatear"@, icon: "format"@, action: "ctrl+alt+l"@, danger: false, recommended: true },
                ButtonView { label: "Ejecutar"@, icon: "play"@, action: "shift+f10"@, danger: false, recommended: true },
                ButtonView { label: "Deshacer"@, icon: "undo"@, action: "ctrl+z"@, danger: false, recommended: true },
                ButtonView { label: "Reemplazar"@, icon: "replace"@, action: "ctrl+r"@, danger: false, recommended: false },
                ButtonView { label: "Ir a línea"@, icon: "find"@, action: "ctrl+g"@, danger: false, recommended: false },
                ButtonView { label: "Renombrar"@, icon: "rename"@, action: "shift+f6"@, danger: false, recommended: false },
                ButtonView { label: "Buscar acción"@, icon: "find"@, action: "ctrl+shift+a"@, danger: false, recommended: false },
            ],
        },
        ProfileView {
            id: "lightroom"@,
            matches: seq!["lightroom"@],
            buttons: seq![
                ButtonView { label: "Cuadrícula"@, icon: "apps"@, action: "g"@, danger: false, recommended: true },
                ButtonView { label: "Lupa"@, icon: "zoomin"@, action: "e"@, danger: false, recommended: true },
                ButtonView { label: "Revelar"@, icon: "brush"@, action: "d"@, danger: false, recommended: true },
                ButtonView { label: "Deshacer"@, icon: "undo"@, action: "ctrl+z"@, danger: false, recommended: true },
                ButtonView { label: "Importar"@, icon: "download"@, action: "ctrl+shift+i"@, danger: false, recommended: false },
                ButtonView { label: "Exportar"@, icon: "upload"@, action: "ctrl+shift+e"@, danger: false, recommended: false },
                ButtonView { label: "Marcar"@, icon: "star"@, action: "p"@, danger: false, recommended: false },
                ButtonView { label: "Rechazar"@, icon: "delete"@, action: "x"@, danger: false, recommended: false },
            ],
        },
        ProfileView {
            id: "telegram"@,
            matches: seq!["telegram"@],
            buttons: seq![
                ButtonView { label: "Buscar"@, icon: "find"@, action: "ctrl+f"@, danger: false, recommended: true },
                ButtonView { label: "Sgte chat"@, icon: "redo"@, action: "alt+down"@, danger: false, recommended: true },
                ButtonView { label: "Chat ant."@, icon: "undo"@, action: "alt+up"@, danger: false, recommended: true },
                ButtonView { label: "Guardados"@, icon: "star"@, action: "ctrl+0"@, danger: false, recommended: true },
            ],
        },
        ProfileView {
            id: "gmeet"@,
            matches: seq!["google meet"@, "meet -"@],
            buttons: seq![
                ButtonView { label: "Silenciar"@, icon: "mic"@, action: "ctrl+d"@, danger: false, recommended: true },
                ButtonView { label: "Cámara"@, icon: "video"@, action: "ctrl+e"@, danger: false, recommended: true },
                ButtonView { label: "Levantar mano"@, icon: "hand"@, action: "ctrl+alt+h"@, danger: false, recommended: true },
                ButtonView { label: "Pant. completa"@, icon: "fullscreen"@, action: "f"@, danger: false, recommended: false },
            ],
        },
        ProfileView {
            id: "trello"@,
            matches: seq!["trello"@],
            buttons: seq![
                ButtonView { label: "Buscar"@, icon: "find"@, action: "/"@, danger: false, recommended: true },
                ButtonView { label: "Filtrar"@, icon: "filter"@, action: "f"@, danger: false, recommended: true },
                ButtonView { label: "Tableros"@, icon: "apps"@, action: "b"@, danger: false, recommended: true },
                ButtonView { label: "Mis tarjetas"@, icon: "star"@, action: "q"@, danger: false, recommended: true },
                ButtonView { label: "Archivar"@, icon: "archive"@, action: "c"@, danger: false, recommended: false },
                ButtonView { label: "Etiquetas"@, icon: "link"@, action: "l"@, danger: false, recommended: false },
                ButtonView { label: "Vencimiento"@, icon: "calendar"@, action: "d"@, danger: false, recommended: false },
                ButtonView { label: "Miembros"@, icon: "people"@, action: "m"@, danger: false, recommended: false },
            ],
        },
        ProfileView {
            id: "todoist"@,
            matches: seq!["todoist"@],
            buttons: seq![
                ButtonView { label: "Añadir rápido"@, icon: "new"@, action: "q"@, danger: false, recommended: true },
                ButtonView { label: "Añadir tarea"@, icon: "new"@, action: "a"@, danger: false, recommended: true },
                ButtonView { label: "Deshacer"@, icon: "undo"@, action: "ctrl+z"@, danger: false, recommended: false },
                ButtonView { label: "Sincronizar"@, icon: "refresh"@, action: "ctrl+r"@, danger: false, recommended: false },
            ],
        },
    ]
}


/// Part 5 of the catalogue, in catalogue order.
fn profiles_4() -> (r: Vec<Profile>)
    ensures
        profile_views(r@) == catalogue_4(),
        r@.len() == 10,
{
    proof {
        reveal(catalogue_4);
    }
    let p0 = profile(
                "canva",
                &["canva"],
                vec![
                    b("Texto", "text", "t"),
                    b("Deshacer", "undo", "ctrl+z"),
                    b("Duplicar", "duplicate", "ctrl+d"),
                    b("Copiar", "copy", "ctrl+c"),
                    b("Pegar", "paste", "ctrl+v"),
                    bx("Rehacer", "redo", "ctrl+y"),
                    bx("Rectángulo", "rect", "r"),
                    bx("Círculo", "ellipse", "c"),
                    bx("Línea", "line", "l"),
                    bx("Agrupar", "group", "ctrl+g"),
                ],
            );
    assert(p0@.matches =~= catalogue_4()[0].matches);
    assert(p0@.buttons =~= catalogue_4()[0].buttons);
    let p1 = profile(
                "paint",
                &["paint"],
                vec![
                    b("Lápiz", "pencil", "uia:Lápiz"),
                    b("Relleno", "fill", "uia:Relleno"),
                    b("Texto", "text", "uia:Texto"),
                    b("Borrador", "eraser", "uia:Borrador"),
                    b("Selector color", "colorpick", "uia:Selector de colores"),
                    b("Rectángulo", "rect", "uia:Rectángulo"),
                    b("Elipse", "ellipse", "uia:Elipse"),
                    b("Línea", "line", "uia:Línea"),
                    bx("Lupa", "zoomin", "uia:Lupa"),
                    bx("Recortar", "crop", "uia:Recortar"),
                    bx("Girar dcha.", "rotate", "uia:Girar>>Girar 90º a la derecha"),
                    bx(
                        "Girar izq.",
                        "rotate",
                        "uia:Girar>>Girar 90º a la izquierda",
                    ),
                    bx("Deshacer", "undo", "ctrl+z"),
                    bx("Rehacer", "redo", "ctrl+y"),
                    bx("Guardar", "save", "ctrl+s"),
                    bx("Copiar", "copy", "ctrl+c"),
                    bx("Pegar", "paste", "ctrl+v"),
                    b(
                        "Colores",
                        "palette",
                        "colorpicker:Negro=000000;Blanco=FFFFFF;Gris=7F7F7F;Rojo=ED1C24;\
                  Naranja=FF7F27;Amarillo=FFF200;Verde=22B14C;Turquesa=00A2E8;Añil=3F48CC;\
                  Púrpura=A349A4;Marrón=B97A57;Rosa=FFAEC9",
                    ),
                ],
            );
    assert(p1@.matches =~= catalogue_4()[1].matches);
    assert(p1@.buttons =~= catalogue_4()[1].buttons);
    let p2 = profile(
                "davinci",
                &["davinci", "resolve"],
                vec![
                    b("Play/Pausa", "play", "space"),
                    b("Entrada", "login", "i"),
                    b("Salida", "logout", "o"),
                    b("Cortar", "cut", "ctrl+b"),
                    b("Deshacer", "undo", "ctrl+z"),
                    bx("Copiar", "copy", "ctrl+c"),
                    bx("Pegar", "paste", "ctrl+v"),
                    bx("Rehacer", "redo", "ctrl+shift+z"),
                ],
            );
    assert(p2@.matches =~= catalogue_4()[2].matches);
    assert(p2@.buttons =~= catalogue_4()[2].buttons);
    let p3 = profile(
                "audacity",
                &["audacity"],
                vec![
                    b("Reproducir", "play", "space"),
                    b("Grabar", "record", "r"),
                    b("Deshacer", "undo", "ctrl+z"),
                    b("Cortar", "cut", "ctrl+x"),
                    b("Copiar", "copy", "ctrl+c"),
                    bx("Pegar", "paste", "ctrl+v"),
                    bx("Silencio", "mute", "ctrl+l"),
                    bx("Rehacer", "redo", "ctrl+y"),
                ],
            );
    assert(p3@.matches =~= catalogue_4()[3].matches);
    assert(p3@.buttons =~= catalogue_4()[3].buttons);
    let p4 = profile(
                "jetbrains",
                &[
                    "intellij",
                    "pycharm",
                    "webstorm",
                    "phpstorm",
                    "rider",
                    "goland",
                    "clion",
                    "datagrip",
                    "android studio",
                ],
                vec![
                    b("Buscar", "find", "ctrl+f"),
                    b("Comentar", "comment", "ctrl+/"),
                    b("Reformatear", "format", "ctrl+alt+l"),
                    b("Ejecutar", "play", "shift+f10"),
                    b("Deshacer", "undo", "ctrl+z"),
                    bx("Reemplazar", "replace", "ctrl+r"),
                    bx("Ir a línea", "find", "ctrl+g"),
                    bx("Renombrar", "rename", "shift+f6"),
                    bx("Buscar acción", "find", "ctrl+shift+a"),
                ],
            );
    assert(p4@.matches =~= catalogue_4()[4].matches);
    assert(p4@.buttons =~= catalogue_4()[4].buttons);
    let p5 = profile(
                "lightroom",
                &["lightroom"],
                vec![
                    b("Cuadrícula", "apps", "g"),
                    b("Lupa", "zoomin", "e"),
                    b("Revelar", "brush", "d"),
                    b("Deshacer", "undo", "ctrl+z"),
                    bx("Importar", "download", "ctrl+shift+i"),
                    bx("Exportar", "upload", "ctrl+shift+e"),
                    bx("Marcar", "star", "p"),
                    bx("Rechazar", "delete", "x"),
                ],
            );
    assert(p5@.matches =~= catalogue_4()[5].matches);
    assert(p5@.buttons =~= catalogue_4()[5].buttons);
    let p6 = profile(
                "telegram",
                &["telegram"],
                vec![
                    b("Buscar", "find", "ctrl+f"),
                    b("Sgte chat", "redo", "alt+down"),
                    b("Chat ant.", "undo", "alt+up"),
                    b("Guardados", "star", "ctrl+0"),
                ],
            );
    assert(p6@.matches =~= catalogue_4()[6].matches);
    assert(p6@.buttons =~= catalogue_4()[6].buttons);
    let p7 = profile(
                "gmeet",
                &["google meet", "meet -"],
                vec![
                    b("Silenciar", "mic", "ctrl+d"),
                    b("Cámara", "video", "ctrl+e"),
                    b("Levantar mano", "hand", "ctrl+alt+h"),
                    bx("Pant. completa", "fullscreen", "f"),
                ],
            );
    assert(p7@.matches =~= catalogue_4()[7].matches);
    assert(p7@.buttons =~= catalogue_4()[7].buttons);
    let p8 = profile(
                "trello",
                &["trello"],
                vec![
                    b("Buscar", "find", "/"),
                    b("Filtrar", "filter", "f"),
                    b("Tableros", "apps", "b"),
                    b("Mis tarjetas", "star", "q"),
                    bx("Archivar", "archive", "c"),
                    bx("Etiquetas", "link", "l"),
                    bx("Vencimiento", "calendar", "d"),
                    bx("Miembros", "people", "m"),
                ],
            );
    assert(p8@.matches =~= catalogue_4()[8].matches);
    assert(p8@.buttons =~= catalogue_4()[8].buttons);
    let p9 = profile(
                "todoist",
                &["todoist"],
                vec![
                    b("Añadir rápido", "new", "q"),
                    b("Añadir tarea", "new", "a"),
                    bx("Deshacer", "undo", "ctrl+z"),
                    bx("Sincronizar", "refresh", "ctrl+r"),
                ],
            );
    assert(p9@.matches =~= catalogue_4()[9].matches);
    assert(p9@.buttons =~= catalogue_4()[9].buttons);
    let r = vec![p0, p1, p2, p3, p4, p5, p6, p7, p8, p9];
    assert(profile_views(r@) =~= catalogue_4());
    r
}

/// Part 6 of the catalogue, by contents.
#[verifier::opaque]
pub open spec fn catalogue_5() -> Seq<ProfileView> {
    seq![
        ProfileView {
            id: "linear"@,
            matches: seq!["linear"@],
            buttons: seq![
                ButtonView { label: "Crear"@, icon: "new"@, action: "c"@, danger: false, recommended: true },
                ButtonView { label: "Buscar"@, icon: "find"@, action: "/"@, danger: false, recommended: true },
                ButtonView { label: "Asignar"@, icon: "assign"@, action: "a"@, danger: false, recommended: true },
                ButtonView { label: "Estado"@, icon: "redo"@, action: "s"@, danger: false, recommended: true },
                ButtonView { label: "Prioridad"@, icon: "star"@, action: "p"@, danger: false, recommended: false },
                ButtonView { label: "Etiqueta"@, icon: "link"@, action: "l"@, danger: false, recommended: false },
                ButtonView { label: "Vencimiento"@, icon: "calendar"@, action: "d"@, danger: false, recommended: false },
            ],
        },
        ProfileView {
            id: "jira"@,
            matches: seq!["jira"@],
            buttons: seq![
                ButtonView { label: "Crear"@, icon: "new"@, action: "c"@, danger: false, recommended: true },
                ButtonView { label: "Buscar"@, icon: "find"@, action: "/"@, danger: false, recommended: true },
                ButtonView { label: "Asignar"@, icon: "assign"@, action: "a"@, danger: false, recommended: true },
                ButtonView { label: "Editar"@, icon: "redo"@, action: "e"@, danger: false, recommended: true },
                ButtonView { label: "Comentar"@, icon: "comment"@, action: "m"@, danger: false, recommended: false },
                ButtonView { label: "Asignarme"@, icon: "star"@, action: "i"@, danger: false, recommended: false },
            ],
        },
        ProfileView {
            id: "miro"@,
            matches: seq!["miro"@],
            buttons: seq![
                ButtonView { label: "Texto"@, icon: "text"@, action: "t"@, danger: false, recommended: true },
                ButtonView { label: "Nota"@, icon: "note"@, action: "s"@, danger: false, recommended: true },
                ButtonView { label: "Lápiz"@, icon: "pencil"@, action: "p"@, danger: false, recommended: true },
                ButtonView { label: "Deshacer"@, icon: "undo"@, action: "ctrl+z"@, danger: false, recommended: true },
                ButtonView { label: "Rectángulo"@, icon: "rect"@, action: "r"@, danger: false, recommended: false },
                ButtonView { label: "Marco"@, icon: "frame"@, action: "f"@, danger: false, recommended: false },
                ButtonView { label: "Copiar"@, icon: "copy"@, action: "ctrl+c"@, danger: false, recommended: false },
                ButtonView { label: "Pegar"@, icon: "paste"@, action: "ctrl+v"@, danger: false, recommended: false },
            ],
        },
        ProfileView {
            id: "postman"@,
            matches: seq!["postman"@],
            buttons: seq![
                ButtonView { label: "Enviar"@, icon: "send"@, action: "ctrl+enter"@, danger: false, recommended: true },
                ButtonView { label: "Guardar"@, icon: "save"@, action: "ctrl+s"@, danger: false, recommended: true },
                ButtonView { label: "Nuevo"@, icon: "new"@, action: "ctrl+n"@, danger: false, recommended: true },
                ButtonView { label: "Buscar"@, icon: "find"@, action: "ctrl+f"@, danger: false, recommended: true },
                ButtonView { label: "Nueva pestaña"@, icon: "new"@, action: "ctrl+t"@, danger: false, recommended: false },
                ButtonView { label: "Cerrar pestaña"@, icon: "close"@, action: "ctrl+w"@, danger: false, recommended: false },
            ],
        },
        ProfileView {
            id: "github"@,
            matches: seq!["github"@],
            buttons: seq![
                ButtonView { label: "Buscar"@, icon: "find"@, action: "/"@, danger: false, recommended: true },
                ButtonView { label: "Archivos"@, icon: "find"@, action: "t"@, danger: false, recommended: true },
                ButtonView { label: "Ir a línea"@, icon: "find"@, action: "l"@, danger: false, recommended: true },
                ButtonView { label: "Cambiar rama"@, icon: "tab"@, action: "w"@, danger: false, recommended: true },
                ButtonView { label: "Editor web"@, icon: "text"@, action: "."@, danger: false, recommended: false },
                ButtonView { label: "Blame"@, icon: "comment"@, action: "b"@, danger: false, recommended: false },
            ],
        },
        ProfileView {
            id: "overleaf"@,
            matches: seq!["overleaf"@],
            buttons: seq![
                ButtonView { label: "Guardar/Compilar"@, icon: "play"@, action: "ctrl+s"@, danger: false, recommended: true },
                ButtonView { label: "Buscar"@, icon: "find"@, action: "ctrl+f"@, danger: false, recommended: true },
                ButtonView { label: "Deshacer"@, icon: "undo"@, action: "ctrl+z"@, danger: false, recommended: true },
                ButtonView { label: "Copiar"@, icon: "copy"@, action: "ctrl+c"@, danger: false, recommended: true },
                ButtonView { label: "Pegar"@, icon: "paste"@, action: "ctrl+v"@, danger: false, recommended: true },
                ButtonView { label: "Rehacer"@, icon: "redo"@, action: "ctrl+y"@, danger: false, recommended: false },
                ButtonView { label: "Comentar"@, icon: "comment"@, action: "ctrl+/"@, danger: false, recommended: false },
            ],
        },
        ProfileView {
            id: "gkeep"@,
            matches: seq!["google keep"@],
            buttons: seq![
                ButtonView { label: "Nueva nota"@, icon: "new"@, action: "c"@, danger: false, recommended: true },
                ButtonView { label: "Buscar"@, icon: "find"@, action: "/"@, danger: false, recommended: true },
                ButtonView { label: "Lista nueva"@, icon: "new"@, action: "l"@, danger: false, recommended: true },
                ButtonView { label: "Archivar"@, icon: "archive"@, action: "e"@, danger: false, recommended: true },
                ButtonView { label: "Fijar"@, icon: "pin"@, action: "f"@, danger: false, recommended: false },
            ],
        },
        ProfileView {
            id: "aftereffects"@,
            matches: seq!["after effects"@],
            buttons: seq![
                ButtonView { label: "Vista previa"@, icon: "play"@, action: "space"@, danger: false, recommended: true },
                ButtonView { label: "Selección"@, icon: "cursor"@, action: "v"@, danger: false, recommended: true },
                ButtonView { label: "Deshacer"@, icon: "undo"@, action: "ctrl+z"@, danger: false, recommended: true },
                ButtonView { label: "Guardar"@, icon: "save"@, action: "ctrl+s"@, danger: false, recommended: true },
                ButtonView { label: "Mano"@, icon: "hand"@, action: "h"@, danger: false, recommended: false },
                ButtonView { label: "Zoom"@, icon: "zoomin"@, action: "z"@, danger: false, recommended: false },
                ButtonView { label: "Rehacer"@, icon: "redo"@, action: "ctrl+shift+z"@, danger: false, recommended: false },
                ButtonView { label: "Copiar"@, icon: "copy"@, action: "ctrl+c"@, danger: false, recommended: false },
            ],
        },
        ProfileView {
            id: "krita"@,
            matches: seq!["krita"@],
            buttons: seq![
                ButtonView { label: "Pincel"@, icon: "brush"@, action: "b"@, danger: false, recommended: true },
                ButtonView { label: "Borrador"@, icon: "eraser"@, action: "e"@, danger: false, recommended: true },
                ButtonView { label: "Deshacer"@, icon: "undo"@, action: "ctrl+z"@, danger: false, recommended: true },
                ButtonView { label: "Guardar"@, icon: "save"@, action: "ctrl+s"@, danger: false, recommended: true },
                ButtonView { label: "Copiar"@, icon: "copy"@, action: "ctrl+c"@, danger: false, recommended: true },
                ButtonView { label: "Pegar"@, icon: "paste"@, action: "ctrl+v"@, danger: false, recommended: true },
                ButtonView { label: "Zoom +"@, icon: "zoomin"@, action: "ctrl+add"@, danger: false, recommended: false },
                ButtonView { label: "Rehacer"@, icon: "redo"@, action: "ctrl+shift+z"@, danger: false, recommended: false },
            ],
        },
        ProfileView {
            id: "inkscape"@,
            matches: seq!["inkscape"@],
            buttons: seq![
                ButtonView { label: "Seleccionar"@, icon: "cursor"@, action: "s"@, danger: false, recommended: true },
                ButtonView { label: "Lápiz"@, icon: "pencil"@, action: "p"@, danger: false, recommended: true },
                ButtonView { label: "Texto"@, icon: "text"@, action: "t"@, danger: false, recommended: true },
                ButtonView { label: "Deshacer"@, icon: "undo"@, action: "ctrl+z"@, danger: false, recommended: true },
                ButtonView { label: "Rectángulo"@, icon: "rect"@, action: "r"@, danger: false, recommended: false },
                ButtonView { label: "Elipse"@, icon: "ellipse"@, action: "e"@, danger: false, recommended: false },
                ButtonView { label: "Guardar"@, icon: "save"@, action: "ctrl+s"@, danger: false, recommended: false },
                ButtonView { label: "Rehacer"@, icon: "redo"@, action: "ctrl+y"@, danger: false, recommended: false },
            ],
        },
    ]
}


/// Part 6 of the catalogue, in catalogue order.
fn profiles_5() -> (r: Vec<Profile>)
    ensures
        profile_views(r@) == catalogue_5(),
        r@.len() == 10,
{
    proof {
        reveal(catalogue_5);
    }
    let p0 = profile(
                "linear",
                &["linear"],
                vec![
                    b("Crear", "new", "c"),
                    b("Buscar", "find", "/"),
                    b("Asignar", "assign", "a"),
                    b("Estado", "redo", "s"),
                    bx("Prioridad", "star", "p"),
                    bx("Etiqueta", "link", "l"),
                    bx("Vencimiento", "calendar", "d"),
                ],
            );
    assert(p0@.matches =~= catalogue_5()[0].matches);
    assert(p0@.buttons =~= catalogue_5()[0].buttons);
    let p1 = profile(
                "jira",
                &["jira"],
                vec![
                    b("Crear", "new", "c"),
                    b("Buscar", "find", "/"),
                    b("Asignar", "assign", "a"),
                    b("Editar", "redo", "e"),
                    bx("Comentar", "comment", "m"),
                    bx("Asignarme", "star", "i"),
                ],
            );
    assert(p1@.matches =~= catalogue_5()[1].matches);
    assert(p1@.buttons =~= catalogue_5()[1].buttons);
    let p2 = profile(
                "miro",
                &["miro"],
                vec![
                    b("Texto", "text", "t"),
                    b("Nota", "note", "s"),
                    b("Lápiz", "pencil", "p"),
                    b("Deshacer", "undo", "ctrl+z"),
                    bx("Rectángulo", "rect", "r"),
                    bx("Marco", "frame", "f"),
                    bx("Copiar", "copy", "ctrl+c"),
                    bx("Pegar", "paste", "ctrl+v"),
                ],
            );
    assert(p2@.matches =~= catalogue_5()[2].matches);
    assert(p2@.buttons =~= catalogue_5()[2].buttons);
    let p3 = profile(
                "postman",
                &["postman"],
                vec![
                    b("Enviar", "send", "ctrl+enter"),
                    b("Guardar", "save", "ctrl+s"),
                    b("Nuevo", "new", "ctrl+n"),
                    b("Buscar", "find", "ctrl+f"),
                    bx("Nueva pestaña", "new", "ctrl+t"),
                    bx("Cerrar pestaña", "close", "ctrl+w"),
                ],
            );
    assert(p3@.matches =~= catalogue_5()[3].matches);
    assert(p3@.buttons =~= catalogue_5()[3].buttons);
    let p4 = profile(
                "github",
                &["github"],
                vec![
                    b("Buscar", "find", "/"),
                    b("Archivos", "find", "t"),
                    b("Ir a línea", "find", "l"),
                    b("Cambiar rama", "tab", "w"),
                    bx("Editor web", "text", "."),
                    bx("Blame", "comment", "b"),
                ],
            );
    assert(p4@.matches =~= catalogue_5()[4].matches);
    assert(p4@.buttons =~= catalogue_5()[4].buttons);
    let p5 = profile(
                "overleaf",
                &["overleaf"],
                vec![
                    b("Guardar/Compilar", "play", "ctrl+s"),
                    b("Buscar", "find", "ctrl+f"),
                    b("Deshacer", "undo", "ctrl+z"),
                    b("Copiar", "copy", "ctrl+c"),
                    b("Pegar", "paste", "ctrl+v"),
                    bx("Rehacer", "redo", "ctrl+y"),
                    bx("Comentar", "comment", "ctrl+/"),
                ],
            );
    assert(p5@.matches =~= catalogue_5()[5].matches);
    assert(p5@.buttons =~= catalogue_5()[5].buttons);
    let p6 = profile(
                "gkeep",
                &["google keep"],
                vec![
                    b("Nueva nota", "new", "c"),
                    b("Buscar", "find", "/"),
                    b("Lista nueva", "new", "l"),
                    b("Archivar", "archive", "e"),
                    bx("Fijar", "pin", "f"),
                ],
            );
    assert(p6@.matches =~= catalogue_5()[6].matches);
    assert(p6@.buttons =~= catalogue_5()[6].buttons);
    let p7 = profile(
                "aftereffects",
                &["after effects"],
                vec![
                    b("Vista previa", "play", "space"),
                    b("Selección", "cursor", "v"),
                    b("Deshacer", "undo", "ctrl+z"),
                    b("Guardar", "save", "ctrl+s"),
                    bx("Mano", "hand", "h"),
                    bx("Zoom", "zoomin", "z"),
                    bx("Rehacer", "redo", "ctrl+shift+z"),
                    bx("Copiar", "copy", "ctrl+c"),
                ],
            );
    assert(p7@.matches =~= catalogue_5()[7].matches);
    assert(p7@.buttons =~= catalogue_5()[7].buttons);
    let p8 = profile(
                "krita",
                &["krita"],
                vec![
                    b("Pincel", "brush", "b"),
                    b("Borrador", "eraser", "e"),
                    b("Deshacer", "undo", "ctrl+z"),
                    b("Guardar", "save", "ctrl+s"),
                    b("Copiar", "copy", "ctrl+c"),
                    b("Pegar", "paste", "ctrl+v"),
                    bx("Zoom +", "zoomin", "ctrl+add"),
                    bx("Rehacer", "redo", "ctrl+shift+z"),
                ],
            );
    assert(p8@.matches =~= catalogue_5()[8].matches);
    assert(p8@.buttons =~= catalogue_5()[8].buttons);
    let p9 = profile(
                "inkscape",
                &["inkscape"],
                vec![
                    b("Seleccionar", "cursor", "s"),
                    b("Lápiz", "pencil", "p"),
                    b("Texto", "text", "t"),
                    b("Deshacer", "undo", "ctrl+z"),
                    bx("Rectángulo", "rect", "r"),
                    bx("Elipse", "ellipse", "e"),
                    bx("Guardar", "save", "ctrl+s"),
                    bx("Rehacer", "redo", "ctrl+y"),
                ],
            );
    assert(p9@.matches =~= catalogue_5()[9].matches);
    assert(p9@.buttons =~= catalogue_5()[9].buttons);
    let r = vec![p0, p1, p2, p3, p4, p5, p6, p7, p8, p9];
    assert(profile_views(r@) =~= catalogue_5());
    r
}

/// Part 7 of the catalogue, by contents.
#[verifier::opaque]
pub open spec fn catalogue_6() -> Seq<ProfileView> {
    seq![
        ProfileView {
            id: "whatsapp"@,
            matches: seq!["whatsapp"@],
            buttons: seq![
                ButtonView { label: "Nuevo chat"@, icon: "new"@, action: "ctrl+n"@, danger: false, recommended: true },
                ButtonView { label: "Buscar"@, icon: "find"@, action: "ctrl+f"@, danger: false, recommended: true },
                ButtonView { label: "Sgte chat"@, icon: "next"@, action: "ctrl+shift+]"@, danger: false, recommended: true },
                ButtonView { label: "Chat ant."@, icon: "prev"@, action: "ctrl+shift+["@, danger: false, recommended: true },
                ButtonView { label: "Archivar"@, icon: "archive"@, action: "ctrl+e"@, danger: false, recommended: false },
                ButtonView { label: "Silenciar"@, icon: "mute"@, action: "ctrl+shift+m"@, danger: false, recommended: false },
                ButtonView { label: "Dictar"@, icon: "mic"@, action: "dictate"@, danger: false, recommended: false },
            ],
        },
        ProfileView {
            id: "twitch"@,
            matches: seq!["twitch"@],
            buttons: seq![
                ButtonView { label: "Play/Pausa"@, icon: "play"@, action: "space"@, danger: false, recommended: true },
                ButtonView { label: "Silenciar"@, icon: "mute"@, action: "m"@, danger: false, recommended: true },
                ButtonView { label: "Pant. completa"@, icon: "fullscreen"@, action: "f"@, danger: false, recommended: true },
                ButtonView { label: "Teatro"@, icon: "video"@, action: "alt+t"@, danger: false, recommended: true },
            ],
        },
        ProfileView {
            id: "netflix"@,
            matches: seq!["netflix"@],
            buttons: seq![
                ButtonView { label: "Play/Pausa"@, icon: "play"@, action: "space"@, danger: false, recommended: true },
                ButtonView { label: "Pant. completa"@, icon: "fullscreen"@, action: "f"@, danger: false, recommended: true },
                ButtonView { label: "Silenciar"@, icon: "mute"@, action: "m"@, danger: false, recommended: true },
            ],
        },
        ProfileView {
            id: "xtwitter"@,
            matches: seq!["twitter"@, "/ x"@],
            buttons: seq![
                ButtonView { label: "Nuevo post"@, icon: "new"@, action: "n"@, danger: false, recommended: true },
                ButtonView { label: "Buscar"@, icon: "find"@, action: "/"@, danger: false, recommended: true },
                ButtonView { label: "Me gusta"@, icon: "star"@, action: "l"@, danger: false, recommended: true },
                ButtonView { label: "Responder"@, icon: "reply"@, action: "r"@, danger: false, recommended: true },
                ButtonView { label: "Repost"@, icon: "redo"@, action: "t"@, danger: false, recommended: false },
            ],
        },
        ProfileView {
            id: "eclipse"@,
            matches: seq!["eclipse"@],
            buttons: seq![
                ButtonView { label: "Guardar"@, icon: "save"@, action: "ctrl+s"@, danger: false, recommended: true },
                ButtonView { label: "Buscar"@, icon: "find"@, action: "ctrl+f"@, danger: false, recommended: true },
                ButtonView { label: "Comentar"@, icon: "comment"@, action: "ctrl+/"@, danger: false, recommended: true },
                ButtonView { label: "Ejecutar"@, icon: "play"@, action: "ctrl+f11"@, danger: false, recommended: true },
                ButtonView { label: "Deshacer"@, icon: "undo"@, action: "ctrl+z"@, danger: false, recommended: true },
                ButtonView { label: "Copiar"@, icon: "copy"@, action: "ctrl+c"@, danger: false, recommended: true },
                ButtonView { label: "Pegar"@, icon: "paste"@, action: "ctrl+v"@, danger: false, recommended: true },
                ButtonView { label: "Formato"@, icon: "format"@, action: "ctrl+shift+f"@, danger: false, recommended: false },
                ButtonView { label: "Organizar imports"@, icon: "redo"@, action: "ctrl+shift+o"@, danger: false, recommended: false },
            ],
        },
        ProfileView {
            id: "dbeaver"@,
            matches: seq!["dbeaver"@],
            buttons: seq![
                ButtonView { label: "Ejecutar"@, icon: "play"@, action: "ctrl+enter"@, danger: false, recommended: true },
                ButtonView { label: "Guardar"@, icon: "save"@, action: "ctrl+s"@, danger: false, recommended: true },
                ButtonView { label: "Buscar"@, icon: "find"@, action: "ctrl+f"@, danger: false, recommended: true },
                ButtonView { label: "Deshacer"@, icon: "undo"@, action: "ctrl+z"@, danger: false, recommended: true },
                ButtonView { label: "Copiar"@, icon: "copy"@, action: "ctrl+c"@, danger: false, recommended: true },
                ButtonView { label: "Pegar"@, icon: "paste"@, action: "ctrl+v"@, danger: false, recommended: true },
                ButtonView { label: "Comentar"@, icon: "comment"@, action: "ctrl+/"@, danger: false, recommended: false },
                ButtonView { label: "Formato"@, icon: "format"@, action: "ctrl+shift+f"@, danger: false, recommended: false },
            ],
        },
        ProfileView {
            id: "unity"@,
            matches: seq!["unity"@],
            buttons: seq![
                ButtonView { label: "Reproducir"@, icon: "play"@, action: "ctrl+p"@, danger: false, recommended: true },
                ButtonView { label: "Mano"@, icon: "hand"@, action: "q"@, danger: false, recommended: true },
                ButtonView { label: "Mover"@, icon: "move"@, action: "w"@, danger: false, recommended: true },
                ButtonView { label: "Rotar"@, icon: "rotate"@, action: "e"@, danger: false, recommended: true },
                ButtonView { label: "Guardar"@, icon: "save"@, action: "ctrl+s"@, danger: false, recommended: true },
                ButtonView { label: "Deshacer"@, icon: "undo"@, action: "ctrl+z"@, danger: false, recommended: true },
                ButtonView { label: "Duplicar"@, icon: "duplicate"@, action: "ctrl+d"@, danger: false, recommended: false },
                ButtonView { label: "Buscar"@, icon: "find"@, action: "ctrl+f"@, danger: false, recommended: false },
            ],
        },
        ProfileView {
            id: "godot"@,
            matches: seq!["godot"@],
            buttons: seq![
                ButtonView { label: "Ejecutar"@, icon: "play"@, action: "f5"@, danger: false, recommended: true },
                ButtonView { label: "Escena actual"@, icon: "play"@, action: "f6"@, danger: false, recommended: true },
                ButtonView { label: "Guardar"@, icon: "save"@, action: "ctrl+s"@, danger: false, recommended: true },
                ButtonView { label: "Buscar"@, icon: "find"@, action: "ctrl+f"@, danger: false, recommended: true },
                ButtonView { label: "Deshacer"@, icon: "undo"@, action: "ctrl+z"@, danger: false, recommended: true },
                ButtonView { label: "Comentar"@, icon: "comment"@, action: "ctrl+k"@, danger: false, recommended: false },
                ButtonView { label: "Copiar"@, icon: "copy"@, action: "ctrl+c"@, danger: false, recommended: false },
                ButtonView { label: "Pegar"@, icon: "paste"@, action: "ctrl+v"@, danger: false, recommended: false },
            ],
        },
        ProfileView {
            id: "capcut"@,
            matches: seq!["capcut"@],
            buttons: seq![
                ButtonView { label: "Play/Pausa"@, icon: "play"@, action: "space"@, danger: false, recommended: true },
                ButtonView { label: "Dividir"@, icon: "cut"@, action: "ctrl+b"@, danger: false, recommended: true },
                ButtonView { label: "Deshacer"@, icon: "undo"@, action: "ctrl+z"@, danger: false, recommended: true },
                ButtonView { label: "Guardar"@, icon: "save"@, action: "ctrl+s"@, danger: false, recommended: true },
                ButtonView { label: "Eliminar"@, icon: "delete"@, action: "delete"@, danger: false, recommended: false },
                ButtonView { label: "Copiar"@, icon: "copy"@, action: "ctrl+c"@, danger: false, recommended: false },
                ButtonView { label: "Pegar"@, icon: "paste"@, action: "ctrl+v"@, danger: false, recommended: false },
            ],
        },
        ProfileView {
            id: "affinity"@,
            matches: seq!["affinity"@],
            buttons: seq![
                ButtonView { label: "Mover"@, icon: "move"@, action: "v"@, danger: false, recommended: true },
                ButtonView { label: "Pincel"@, icon: "brush"@, action: "b"@, danger: false, recommended: true },
                ButtonView { label: "Borrador"@, icon: "eraser"@, action: "e"@, danger: false, recommended: true },
                ButtonView { label: "Texto"@, icon: "text"@, action: "t"@, danger: false, recommended: true },
                ButtonView { label: "Deshacer"@, icon: "undo"@, action: "ctrl+z"@, danger: false, recommended: true },
                ButtonView { label: "Guardar"@, icon: "save"@, action: "ctrl+s"@, danger: false, recommended: true },
                ButtonView { label: "Recortar"@, icon: "crop"@, action: "c"@, danger: false, recommended: false },
                ButtonView { label: "Copiar"@, icon: "copy"@, action: "ctrl+c"@, danger: false, recommended: false },
                ButtonView { label: "Pegar"@, icon: "paste"@, action: "ctrl+v"@, danger: false, recommended: false },
            ],
        },
    ]
}


/// Part 7 of the catalogue, in catalogue order.
fn profiles_6() -> (r: Vec<Profile>)
    ensures
        profile_views(r@) == catalogue_6(),
        r@.len() == 10,
{
    proof {
        reveal(catalogue_6);
    }
    let p0 = profile(
                "whatsapp",
                &["whatsapp"],
                vec![
                    b("Nuevo chat", "new", "ctrl+n"),
                    b("Buscar", "find", "ctrl+f"),
                    b("Sgte chat", "next", "ctrl+shift+]"),
                    b("Chat ant.", "prev", "ctrl+shift+["),
                    bx("Archivar", "archive", "ctrl+e"),
                    bx("Silenciar", "mute", "ctrl+shift+m"),
                    bx("Dictar", "mic", "dictate"),
                ],
            );
    assert(p0@.matches =~= catalogue_6()[0].matches);
    assert(p0@.buttons =~= catalogue_6()[0].buttons);
    let p1 = profile(
                "twitch",
                &["twitch"],
                vec![
                    b("Play/Pausa", "play", "space"),
                    b("Silenciar", "mute", "m"),
                    b("Pant. completa", "fullscreen", "f"),
                    b("Teatro", "video", "alt+t"),
                ],
            );
    assert(p1@.matches =~= catalogue_6()[1].matches);
    assert(p1@.buttons =~= catalogue_6()[1].buttons);
    let p2 = profile(
                "netflix",
                &["netflix"],
                vec![
                    b("Play/Pausa", "play", "space"),
                    b("Pant. completa", "fullscreen", "f"),
                    b("Silenciar", "mute", "m"),
                ],
            );
    assert(p2@.matches =~= catalogue_6()[2].matches);
    assert(p2@.buttons =~= catalogue_6()[2].buttons);
    let p3 = profile(
                "xtwitter",
                &["twitter", "/ x"],
                vec![
                    b("Nuevo post", "new", "n"),
                    b("Buscar", "find", "/"),
                    b("Me gusta", "star", "l"),
                    b("Responder", "reply", "r"),
                    bx("Repost", "redo", "t"),
                ],
            );
    assert(p3@.matches =~= catalogue_6()[3].matches);
    assert(p3@.buttons =~= catalogue_6()[3].buttons);
    let p4 = profile(
                "eclipse",
                &["eclipse"],
                vec![
                    b("Guardar", "save", "ctrl+s"),
                    b("Buscar", "find", "ctrl+f"),
                    b("Comentar", "comment", "ctrl+/"),
                    b("Ejecutar", "play", "ctrl+f11"),
                    b("Deshacer", "undo", "ctrl+z"),
                    b("Copiar", "copy", "ctrl+c"),
                    b("Pegar", "paste", "ctrl+v"),
                    bx("Formato", "format", "ctrl+shift+f"),
                    bx("Organizar imports", "redo", "ctrl+shift+o"),
                ],
            );
    assert(p4@.matches =~= catalogue_6()[4].matches);
    assert(p4@.buttons =~= catalogue_6()[4].buttons);
    let p5 = profile(
                "dbeaver",
                &["dbeaver"],
                vec![
                    b("Ejecutar", "play", "ctrl+enter"),
                    b("Guardar", "save", "ctrl+s"),
                    b("Buscar", "find", "ctrl+f"),
                    b("Deshacer", "undo", "ctrl+z"),
                    b("Copiar", "copy", "ctrl+c"),
                    b("Pegar", "paste", "ctrl+v"),
                    bx("Comentar", "comment", "ctrl+/"),
                    bx("Formato", "format", "ctrl+shift+f"),
                ],
            );
    assert(p5@.matches =~= catalogue_6()[5].matches);
    assert(p5@.buttons =~= catalogue_6()[5].buttons);
    let p6 = profile(
                "unity",
                &["unity"],
                vec![
                    b("Reproducir", "play", "ctrl+p"),
                    b("Mano", "hand", "q"),
                    b("Mover", "move", "w"),
                    b("Rotar", "rotate", "e"),
                    b("Guardar", "save", "ctrl+s"),
                    b("Deshacer", "undo", "ctrl+z"),
                    bx("Duplicar", "duplicate", "ctrl+d"),
                    bx("Buscar", "find", "ctrl+f"),
                ],
            );
    assert(p6@.matches =~= catalogue_6()[6].matches);
    assert(p6@.buttons =~= catalogue_6()[6].buttons);
    let p7 = profile(
                "godot",
                &["godot"],
                vec![
                    b("Ejecutar", "play", "f5"),
                    b("Escena actual", "play", "f6"),
                    b("Guardar", "save", "ctrl+s"),
                    b("Buscar", "find", "ctrl+f"),
                    b("Deshacer", "undo", "ctrl+z"),
                    bx("Comentar", "comment", "ctrl+k"),
                    bx("Copiar", "copy", "ctrl+c"),
                    bx("Pegar", "paste", "ctrl+v"),
                ],
            );
    assert(p7@.matches =~= catalogue_6()[7].matches);
    assert(p7@.buttons =~= catalogue_6()[7].buttons);
    let p8 = profile(
                "capcut",
                &["capcut"],
                vec![
                    b("Play/Pausa", "play", "space"),
                    b("Dividir", "cut", "ctrl+b"),
                    b("Deshacer", "undo", "ctrl+z"),
                    b("Guardar", "save", "ctrl+s"),
                    bx("Eliminar", "delete", "delete"),
                    bx("Copiar", "copy", "ctrl+c"),
                    bx("Pegar", "paste", "ctrl+v"),
                ],
            );
    assert(p8@.matches =~= catalogue_6()[8].matches);
    assert(p8@.buttons =~= catalogue_6()[8].buttons);
    let p9 = profile(
                "affinity",
                &["affinity"],
                vec![
                    b("Mover", "move", "v"),
                    b("Pincel", "brush", "b"),
                    b("Borrador", "eraser", "e"),
                    b("Texto", "text", "t"),
                    b("Deshacer", "undo", "ctrl+z"),
                    b("Guardar", "save", "ctrl+s"),
                    bx("Recortar", "crop", "c"),
                    bx("Copiar", "copy", "ctrl+c"),
                    bx("Pegar", "paste", "ctrl+v"),
                ],
            );
    assert(p9@.matches =~= catalogue_6()[9].matches);
    assert(p9@.buttons =~= catalogue_6()[9].buttons);
    let r = vec![p0, p1, p2, p3, p4, p5, p6, p7, p8, p9];
    assert(profile_views(r@) =~= catalogue_6());
    r
}

/// Part 8 of the catalogue, by contents.
#[verifier::opaque]
pub open spec fn catalogue_7() -> Seq<ProfileView> {
    seq![
        ProfileView {
            id: "ableton"@,
            matches: seq!["ableton"@],
            buttons: seq![
                ButtonView { label: "Play/Pausa"@, icon: "play"@, action: "space"@, danger: false, recommended: true },
                ButtonView { label: "Grabar"@, icon: "record"@, action: "f9"@, danger: false, recommended: true },
                ButtonView { label: "Deshacer"@, icon: "undo"@, action: "ctrl+z"@, danger: false, recommended: true },
                ButtonView { label: "Guardar"@, icon: "save"@, action: "ctrl+s"@, danger: false, recommended: true },
                ButtonView { label: "Copiar"@, icon: "copy"@, action: "ctrl+c"@, danger: false, recommended: false },
                ButtonView { label: "Pegar"@, icon: "paste"@, action: "ctrl+v"@, danger: false, recommended: false },
                ButtonView { label: "Bucle"@, icon: "repeat"@, action: "ctrl+l"@, danger: false, recommended: false },
            ],
        },
        ProfileView {
            id: "reaper"@,
            matches: seq!["reaper"@],
            buttons: seq![
                ButtonView { label: "Play/Pausa"@, icon: "play"@, action: "space"@, danger: false, recommended: true },
                ButtonView { label: "Grabar"@, icon: "record"@, action: "ctrl+r"@, danger: false, recommended: true },
                ButtonView { label: "Guardar"@, icon: "save"@, action: "ctrl+s"@, danger: false, recommended: true },
                ButtonView { label: "Deshacer"@, icon: "undo"@, action: "ctrl+z"@, danger: false, recommended: true },
                ButtonView { label: "Marcador"@, icon: "star"@, action: "m"@, danger: false, recommended: false },
                ButtonView { label: "Copiar"@, icon: "copy"@, action: "ctrl+c"@, danger: false, recommended: false },
                ButtonView { label: "Pegar"@, icon: "paste"@, action: "ctrl+v"@, danger: false, recommended: false },
            ],
        },
        ProfileView {
            id: "lowriter"@,
            matches: seq!["libreoffice writer"@],
            buttons: seq![
                ButtonView { label: "Guardar"@, icon: "save"@, action: "ctrl+s"@, danger: false, recommended: true },
                ButtonView { label: "Negrita"@, icon: "bold"@, action: "ctrl+b"@, danger: false, recommended: true },
                ButtonView { label: "Buscar"@, icon: "find"@, action: "ctrl+f"@, danger: false, recommended: true },
                ButtonView { label: "Deshacer"@, icon: "undo"@, action: "ctrl+z"@, danger: false, recommended: true },
                ButtonView { label: "Copiar"@, icon: "copy"@, action: "ctrl+c"@, danger: false, recommended: true },
                ButtonView { label: "Pegar"@, icon: "paste"@, action: "ctrl+v"@, danger: false, recommended: true },
                ButtonView { label: "Cursiva"@, icon: "italic"@, action: "ctrl+i"@, danger: false, recommended: false },
                ButtonView { label: "Subrayado"@, icon: "underline"@, action: "ctrl+u"@, danger: false, recommended: false },
                ButtonView { label: "Rehacer"@, icon: "redo"@, action: "ctrl+y"@, danger: false, recommended: false },
                ButtonView { label: "Imprimir"@, icon: "print"@, action: "ctrl+p"@, danger: false, recommended: false },
            ],
        },
        ProfileView {
            id: "localc"@,
            matches: seq!["libreoffice calc"@],
            buttons: seq![
                ButtonView { label: "Guardar"@, icon: "save"@, action: "ctrl+s"@, danger: false, recommended: true },
                ButtonView { label: "Buscar"@, icon: "find"@, action: "ctrl+f"@, danger: false, recommended: true },
                ButtonView { label: "Deshacer"@, icon: "undo"@, action: "ctrl+z"@, danger: false, recommended: true },
                ButtonView { label: "Rehacer"@, icon: "redo"@, action: "ctrl+y"@, danger: false, recommended: true },
                ButtonView { label: "Copiar"@, icon: "copy"@, action: "ctrl+c"@, danger: false, recommended: true },
                ButtonView { label: "Pegar"@, icon: "paste"@, action: "ctrl+v"@, danger: false, recommended: true },
                ButtonView { label: "Negrita"@, icon: "bold"@, action: "ctrl+b"@, danger: false, recommended: false },
                ButtonView { label: "Cursiva"@, icon: "italic"@, action: "ctrl+i"@, danger: false, recommended: false },
                ButtonView { label: "Imprimir"@, icon: "print"@, action: "ctrl+p"@, danger: false, recommended: false },
            ],
        },
        ProfileView {
            id: "loimpress"@,
            matches: seq!["libreoffice impress"@],
            buttons: seq![
                ButtonView { label: "Siguiente"@, icon: "next"@, action: "right"@, danger: false, recommended: true },
                ButtonView { label: "Anterior"@, icon: "prev"@, action: "left"@, danger: false, recommended: true },
                ButtonView { label: "Presentar"@, icon: "play"@, action: "f5"@, danger: false, recommended: true },
                ButtonView { label: "Negro"@, icon: "dark"@, action: "b"@, danger: false, recommended: true },
                ButtonView { label: "Guardar"@, icon: "save"@, action: "ctrl+s"@, danger: false, recommended: true },
                ButtonView { label: "Deshacer"@, icon: "undo"@, action: "ctrl+z"@, danger: false, recommended: true },
                ButtonView { label: "Blanco"@, icon: "light"@, action: "w"@, danger: false, recommended: false },
                ButtonView { label: "Copiar"@, icon: "copy"@, action: "ctrl+c"@, danger: false, recommended: false },
                ButtonView { label: "Pegar"@, icon: "paste"@, action: "ctrl+v"@, danger: false, recommended: false },
                ButtonView { label: "Negrita"@, icon: "bold"@, action: "ctrl+b"@, danger: false, recommended: false },
                ButtonView { label: "Rehacer"@, icon: "redo"@, action: "ctrl+y"@, danger: false, recommended: false },
                ButtonView { label: "Imprimir"@, icon: "print"@, action: "ctrl+p"@, danger: false, recommended: false },
            ],
        },
        ProfileView {
            id: "notepad"@,
            matches: seq!["notepad"@],
            buttons: seq![
                ButtonView { label: "Guardar"@, icon: "save"@, action: "ctrl+s"@, danger: false, recommended: true },
                ButtonView { label: "Buscar"@, icon: "find"@, action: "ctrl+f"@, danger: false, recommended: true },
                ButtonView { label: "Reemplazar"@, icon: "replace"@, action: "ctrl+h"@, danger: false, recommended: true },
                ButtonView { label: "Deshacer"@, icon: "undo"@, action: "ctrl+z"@, danger: false, recommended: true },
                ButtonView { label: "Copiar"@, icon: "copy"@, action: "ctrl+c"@, danger: false, recommended: true },
                ButtonView { label: "Pegar"@, icon: "paste"@, action: "ctrl+v"@, danger: false, recommended: true },
                ButtonView { label: "Cortar"@, icon: "cut"@, action: "ctrl+x"@, danger: false, recommended: false },
                ButtonView { label: "Ir a línea"@, icon: "find"@, action: "ctrl+g"@, danger: false, recommended: false },
                ButtonView { label: "Imprimir"@, icon: "print"@, action: "ctrl+p"@, danger: false, recommended: false },
                ButtonView { label: "Sel. todo"@, icon: "selectall"@, action: "ctrl+a"@, danger: false, recommended: false },
                ButtonView { label: "Eliminar"@, icon: "delete"@, action: "delete"@, danger: true, recommended: false },
                ButtonView { label: "Dictar"@, icon: "mic"@, action: "dictate"@, danger: false, recommended: false },
            ],
        },
        ProfileView {
            id: "sumatra"@,
            matches: seq!["sumatra"@],
            buttons: seq![
                ButtonView { label: "Buscar"@, icon: "find"@, action: "ctrl+f"@, danger: false, recommended: true },
                ButtonView { label: "Ir a página"@, icon: "find"@, action: "ctrl+g"@, danger: false, recommended: true },
                ButtonView { label: "Zoom +"@, icon: "zoomin"@, action: "ctrl+add"@, danger: false, recommended: true },
                ButtonView { label: "Zoom -"@, icon: "zoomout"@, action: "ctrl+subtract"@, danger: false, recommended: true },
                ButtonView { label: "Pant. completa"@, icon: "fullscreen"@, action: "f11"@, danger: false, recommended: false },
                ButtonView { label: "Imprimir"@, icon: "print"@, action: "ctrl+p"@, danger: false, recommended: false },
            ],
        },
        ProfileView {
            id: "foxit"@,
            matches: seq!["foxit"@],
            buttons: seq![
                ButtonView { label: "Buscar"@, icon: "find"@, action: "ctrl+f"@, danger: false, recommended: true },
                ButtonView { label: "Guardar"@, icon: "save"@, action: "ctrl+s"@, danger: false, recommended: true },
                ButtonView { label: "Imprimir"@, icon: "print"@, action: "ctrl+p"@, danger: false, recommended: true },
                ButtonView { label: "Copiar"@, icon: "copy"@, action: "ctrl+c"@, danger: false, recommended: true },
                ButtonView { label: "Zoom +"@, icon: "zoomin"@, action: "ctrl+add"@, danger: false, recommended: false },
                ButtonView { label: "Zoom -"@, icon: "zoomout"@, action: "ctrl+subtract"@, danger: false, recommended: false },
            ],
        },
        ProfileView {
            id: "shotcut"@,
            matches: seq!["shotcut"@],
            buttons: seq![
                ButtonView { label: "Play/Pausa"@, icon: "play"@, action: "space"@, danger: false, recommended: true },
                ButtonView { label: "Dividir"@, icon: "cut"@, action: "s"@, danger: false, recommended: true },
                ButtonView { label: "Deshacer"@, icon: "undo"@, action: "ctrl+z"@, danger: false, recommended: true },
                ButtonView { label: "Guardar"@, icon: "save"@, action: "ctrl+s"@, danger: false, recommended: true },
                ButtonView { label: "Copiar"@, icon: "copy"@, action: "ctrl+c"@, danger: false, recommended: false },
                ButtonView { label: "Pegar"@, icon: "paste"@, action: "ctrl+v"@, danger: false, recommended: false },
                ButtonView { label: "Rehacer"@, icon: "redo"@, action: "ctrl+shift+z"@, danger: false, recommended: false },
            ],
        },
        ProfileView {
            id: "musescore"@,
            matches: seq!["musescore"@],
            buttons: seq![
                ButtonView { label: "Reproducir"@, icon: "play"@, action: "space"@, danger: false, recommended: true },
                ButtonView { label: "Guardar"@, icon: "save"@, action: "ctrl+s"@, danger: false, recommended: true },
                ButtonView { label: "Deshacer"@, icon: "undo"@, action: "ctrl+z"@, danger: false, recommended: true },
                ButtonView { label: "Copiar"@, icon: "copy"@, action: "ctrl+c"@, danger: false, recommended: true },
                ButtonView { label: "Pegar"@, icon: "paste"@, action: "ctrl+v"@, danger: false, recommended: true },
                ButtonView { label: "Rehacer"@, icon: "redo"@, action: "ctrl+shift+z"@, danger: false, recommended: false },
                ButtonView { label: "Imprimir"@, icon: "print"@, action: "ctrl+p"@, danger: false, recommended: false },
            ],
        },
    ]
}


/// Part 8 of the catalogue, in catalogue order.
fn profiles_7() -> (r: Vec<Profile>)
    ensures
        profile_views(r@) == catalogue_7(),
        r@.len() == 10,
{
    proof {
        reveal(catalogue_7);
    }
    let p0 = profile(
                "ableton",
                &["ableton"],
                vec![
                    b("Play/Pausa", "play", "space"),
                    b("Grabar", "record", "f9"),
                    b("Deshacer", "undo", "ctrl+z"),
                    b("Guardar", "save", "ctrl+s"),
                    bx("Copiar", "copy", "ctrl+c"),
                    bx("Pegar", "paste", "ctrl+v"),
                    bx("Bucle", "repeat", "ctrl+l"),
                ],
            );
    assert(p0@.matches =~= catalogue_7()[0].matches);
    assert(p0@.buttons =~= catalogue_7()[0].buttons);
    let p1 = profile(
                "reaper",
                &["reaper"],
                vec![
                    b("Play/Pausa", "play", "space"),
                    b("Grabar", "record", "ctrl+r"),
                    b("Guardar", "save", "ctrl+s"),
                    b("Deshacer", "undo", "ctrl+z"),
                    bx("Marcador", "star", "m"),
                    bx("Copiar", "copy", "ctrl+c"),
                    bx("Pegar", "paste", "ctrl+v"),
                ],
            );
    assert(p1@.matches =~= catalogue_7()[1].matches);
    assert(p1@.buttons =~= catalogue_7()[1].buttons);
    let p2 = profile(
                "lowriter",
                &["libreoffice writer"],
                vec![
                    b("Guardar", "save", "ctrl+s"),
                    b("Negrita", "bold", "ctrl+b"),
                    b("Buscar", "find", "ctrl+f"),
                    b("Deshacer", "undo", "ctrl+z"),
                    b("Copiar", "copy", "ctrl+c"),
                    b("Pegar", "paste", "ctrl+v"),
                    bx("Cursiva", "italic", "ctrl+i"),
                    bx("Subrayado", "underline", "ctrl+u"),
                    bx("Rehacer", "redo", "ctrl+y"),
                    bx("Imprimir", "print", "ctrl+p"),
                ],
            );
    assert(p2@.matches =~= catalogue_7()[2].matches);
    assert(p2@.buttons =~= catalogue_7()[2].buttons);
    let p3 = profile(
                "localc",
                &["libreoffice calc"],
                vec![
                    b("Guardar", "save", "ctrl+s"),
                    b("Buscar", "find", "ctrl+f"),
                    b("Deshacer", "undo", "ctrl+z"),
                    b("Rehacer", "redo", "ctrl+y"),
                    b("Copiar", "copy", "ctrl+c"),
                    b("Pegar", "paste", "ctrl+v"),
                    bx("Negrita", "bold", "ctrl+b"),
                    bx("Cursiva", "italic", "ctrl+i"),
                    bx("Imprimir", "print", "ctrl+p"),
                ],
            );
    assert(p3@.matches =~= catalogue_7()[3].matches);
    assert(p3@.buttons =~= catalogue_7()[3].buttons);
    let p4 = profile(
                "loimpress",
                &["libreoffice impress"],
                vec![
                    b("Siguiente", "next", "right"),
                    b("Anterior", "prev", "left"),
                    b("Presentar", "play", "f5"),
                    b("Negro", "dark", "b"),
                    b("Guardar", "save", "ctrl+s"),
                    b("Deshacer", "undo", "ctrl+z"),
                    bx("Blanco", "light", "w"),
                    bx("Copiar", "copy", "ctrl+c"),
                    bx("Pegar", "paste", "ctrl+v"),
                    bx("Negrita", "bold", "ctrl+b"),
                    bx("Rehacer", "redo", "ctrl+y"),
                    bx("Imprimir", "print", "ctrl+p"),
                ],
            );
    assert(p4@.matches =~= catalogue_7()[4].matches);
    assert(p4@.buttons =~= catalogue_7()[4].buttons);
    let p5 = profile(
                "notepad",
                &["notepad"],
                vec![
                    b("Guardar", "save", "ctrl+s"),
                    b("Buscar", "find", "ctrl+f"),
                    b("Reemplazar", "replace", "ctrl+h"),
                    b("Deshacer", "undo", "ctrl+z"),
                    b("Copiar", "copy", "ctrl+c"),
                    b("Pegar", "paste", "ctrl+v"),
                    bx("Cortar", "cut", "ctrl+x"),
                    bx("Ir a línea", "find", "ctrl+g"),
                    bx("Imprimir", "print", "ctrl+p"),
                    bx("Sel. todo", "selectall", "ctrl+a"),
                    bxd("Eliminar", "delete", "delete"),
                    bx("Dictar", "mic", "dictate"),
                ],
            );
    assert(p5@.matches =~= catalogue_7()[5].matches);
    assert(p5@.buttons =~= catalogue_7()[5].buttons);
    let p6 = profile(
                "sumatra",
                &["sumatra"],
                vec![
                    b("Buscar", "find", "ctrl+f"),
                    b("Ir a página", "find", "ctrl+g"),
                    b("Zoom +", "zoomin", "ctrl+add"),
                    b("Zoom -", "zoomout", "ctrl+subtract"),
                    bx("Pant. completa", "fullscreen", "f11"),
                    bx("Imprimir", "print", "ctrl+p"),
                ],
            );
    assert(p6@.matches =~= catalogue_7()[6].matches);
    assert(p6@.buttons =~= catalogue_7()[6].buttons);
    let p7 = profile(
                "foxit",
                &["foxit"],
                vec![
                    b("Buscar", "find", "ctrl+f"),
                    b("Guardar", "save", "ctrl+s"),
                    b("Imprimir", "print", "ctrl+p"),
                    b("Copiar", "copy", "ctrl+c"),
                    bx("Zoom +", "zoomin", "ctrl+add"),
                    bx("Zoom -", "zoomout", "ctrl+subtract"),
                ],
            );
    assert(p7@.matches =~= catalogue_7()[7].matches);
    assert(p7@.buttons =~= catalogue_7()[7].buttons);
    let p8 = profile(
                "shotcut",
                &["shotcut"],
                vec![
                    b("Play/Pausa", "play", "space"),
                    b("Dividir", "cut", "s"),
                    b("Deshacer", "undo", "ctrl+z"),
                    b("Guardar", "save", "ctrl+s"),
                    bx("Copiar", "copy", "ctrl+c"),
                    bx("Pegar", "paste", "ctrl+v"),
                    bx("Rehacer", "redo", "ctrl+shift+z"),
                ],
            );
    assert(p8@.matches =~= catalogue_7()[8].matches);
    assert(p8@.buttons =~= catalogue_7()[8].buttons);
    let p9 = profile(
                "musescore",
                &["musescore"],
                vec![
                    b("Reproducir", "play", "space"),
                    b("Guardar", "save", "ctrl+s"),
                    b("Deshacer", "undo", "ctrl+z"),
                    b("Copiar", "copy", "ctrl+c"),
                    b("Pegar", "paste", "ctrl+v"),
                    bx("Rehacer", "redo", "ctrl+shift+z"),
                    bx("Imprimir", "print", "ctrl+p"),
                ],
            );
    assert(p9@.matches =~= catalogue_7()[9].matches);
    assert(p9@.buttons =~= catalogue_7()[9].buttons);
    let r = vec![p0, p1, p2, p3, p4, p5, p6, p7, p8, p9];
    assert(profile_views(r@) =~= catalogue_7());
    r
}

/// Part 9 of the catalogue, by contents.
#[verifier::opaque]
pub open spec fn catalogue_8() -> Seq<ProfileView> {
    seq![
        ProfileView {
            id: "soundcloud"@,
            matches: seq!["soundcloud"@],
            buttons: seq![
                ButtonView { label: "Play/Pausa"@, icon: "play"@, action: "space"@, danger: false, recommended: true },
                ButtonView { label: "Siguiente"@, icon: "next"@, action: "shift+right"@, danger: false, recommended: true },
                ButtonView { label: "Anterior"@, icon: "prev"@, action: "shift+left"@, danger: false, recommended: true },
                ButtonView { label: "Me gusta"@, icon: "star"@, action: "l"@, danger: false, recommended: true },
            ],
        },
        ProfileView {
            id: "potplayer"@,
            matches: seq!["potplayer"@],
            buttons: seq![
                ButtonView { label: "Play/Pausa"@, icon: "play"@, action: "space"@, danger: false, recommended: true },
                ButtonView { label: "Pant. completa"@, icon: "fullscreen"@, action: "enter"@, danger: false, recommended: true },
                ButtonView { label: "Silenciar"@, icon: "mute"@, action: "m"@, danger: false, recommended: true },
                ButtonView { label: "+ Volumen"@, icon: "vol"@, action: "up"@, danger: false, recommended: true },
                ButtonView { label: "- Volumen"@, icon: "vol"@, action: "down"@, danger: false, recommended: true },
            ],
        },
        ProfileView {
            id: "primevideo"@,
            matches: seq!["prime video"@],
            buttons: seq![
                ButtonView { label: "Play/Pausa"@, icon: "play"@, action: "space"@, danger: false, recommended: true },
                ButtonView { label: "Pant. completa"@, icon: "fullscreen"@, action: "f"@, danger: false, recommended: true },
                ButtonView { label: "Silenciar"@, icon: "mute"@, action: "m"@, danger: false, recommended: true },
            ],
        },
        ProfileView {
            id: "disney"@,
            matches: seq!["disney+"@],
            buttons: seq![
                ButtonView { label: "Play/Pausa"@, icon: "play"@, action: "space"@, danger: false, recommended: true },
                ButtonView { label: "Pant. completa"@, icon: "fullscreen"@, action: "f"@, danger: false, recommended: true },
                ButtonView { label: "Silenciar"@, icon: "mute"@, action: "m"@, danger: false, recommended: true },
            ],
        },
        ProfileView {
            id: "gslides"@,
            matches: seq!["google slides"@, "presentaciones de google"@],
            buttons: seq![
                ButtonView { label: "Siguiente"@, icon: "next"@, action: "right"@, danger: false, recommended: true },
                ButtonView { label: "Anterior"@, icon: "prev"@, action: "left"@, danger: false, recommended: true },
                ButtonView { label: "Presentar"@, icon: "play"@, action: "ctrl+f5"@, danger: false, recommended: true },
                ButtonView { label: "Negro"@, icon: "dark"@, action: "b"@, danger: false, recommended: true },
                ButtonView { label: "Deshacer"@, icon: "undo"@, action: "ctrl+z"@, danger: false, recommended: true },
                ButtonView { label: "Blanco"@, icon: "light"@, action: "w"@, danger: false, recommended: false },
                ButtonView { label: "Nueva diap."@, icon: "new"@, action: "ctrl+m"@, danger: false, recommended: false },
                ButtonView { label: "Copiar"@, icon: "copy"@, action: "ctrl+c"@, danger: false, recommended: false },
                ButtonView { label: "Pegar"@, icon: "paste"@, action: "ctrl+v"@, danger: false, recommended: false },
                ButtonView { label: "Rehacer"@, icon: "redo"@, action: "ctrl+y"@, danger: false, recommended: false },
                ButtonView { label: "Duplicar"@, icon: "duplicate"@, action: "ctrl+d"@, danger: false, recommended: false },
                ButtonView { label: "Imprimir"@, icon: "print"@, action: "ctrl+p"@, danger: false, recommended: false },
            ],
        },
        ProfileView {
            id: "evernote"@,
            matches: seq!["evernote"@],
            buttons: seq![
                ButtonView { label: "Nueva nota"@, icon: "new"@, action: "ctrl+n"@, danger: false, recommended: true },
                ButtonView { label: "Buscar"@, icon: "find"@, action: "ctrl+shift+f"@, danger: false, recommended: true },
                ButtonView { label: "Negrita"@, icon: "bold"@, action: "ctrl+b"@, danger: false, recommended: true },
                ButtonView { label: "Cursiva"@, icon: "italic"@, action: "ctrl+i"@, danger: false, recommended: true },
                ButtonView { label: "Subrayado"@, icon: "underline"@, action: "ctrl+u"@, danger: false, recommended: false },
                ButtonView { label: "Copiar"@, icon: "copy"@, action: "ctrl+c"@, danger: false, recommended: false },
                ButtonView { label: "Pegar"@, icon: "paste"@, action: "ctrl+v"@, danger: false, recommended: false },
            ],
        },
        ProfileView {
            id: "joplin"@,
            matches: seq!["joplin"@],
            buttons: seq![
                ButtonView { label: "Nueva nota"@, icon: "new"@, action: "ctrl+n"@, danger: false, recommended: true },
                ButtonView { label: "Buscar"@, icon: "find"@, action: "ctrl+f"@, danger: false, recommended: true },
                ButtonView { label: "Negrita"@, icon: "bold"@, action: "ctrl+b"@, danger: false, recommended: true },
                ButtonView { label: "Cursiva"@, icon: "italic"@, action: "ctrl+i"@, danger: false, recommended: true },
                ButtonView { label: "Enlace"@, icon: "link"@, action: "ctrl+k"@, danger: false, recommended: false },
                ButtonView { label: "Copiar"@, icon: "copy"@, action: "ctrl+c"@, danger: false, recommended: false },
                ButtonView { label: "Pegar"@, icon: "paste"@, action: "ctrl+v"@, danger: false, recommended: false },
            ],
        },
        ProfileView {
            id: "rstudio"@,
            matches: seq!["rstudio"@],
            buttons: seq![
                ButtonView { label: "Ejecutar"@, icon: "play"@, action: "ctrl+enter"@, danger: false, recommended: true },
                ButtonView { label: "Guardar"@, icon: "save"@, action: "ctrl+s"@, danger: false, recommended: true },
                ButtonView { label: "Buscar"@, icon: "find"@, action: "ctrl+f"@, danger: false, recommended: true },
                ButtonView { label: "Deshacer"@, icon: "undo"@, action: "ctrl+z"@, danger: false, recommended: true },
                ButtonView { label: "Comentar"@, icon: "comment"@, action: "ctrl+shift+c"@, danger: false, recommended: false },
                ButtonView { label: "Copiar"@, icon: "copy"@, action: "ctrl+c"@, danger: false, recommended: false },
                ButtonView { label: "Pegar"@, icon: "paste"@, action: "ctrl+v"@, danger: false, recommended: false },
            ],
        },
        ProfileView {
            id: "visio"@,
            matches: seq!["visio"@],
            buttons: seq![
                ButtonView { label: "Guardar"@, icon: "save"@, action: "ctrl+s"@, danger: false, recommended: true },
                ButtonView { label: "Deshacer"@, icon: "undo"@, action: "ctrl+z"@, danger: false, recommended: true },
                ButtonView { label: "Copiar"@, icon: "copy"@, action: "ctrl+c"@, danger: false, recommended: true },
                ButtonView { label: "Pegar"@, icon: "paste"@, action: "ctrl+v"@, danger: false, recommended: true },
                ButtonView { label: "Buscar"@, icon: "find"@, action: "ctrl+f"@, danger: false, recommended: true },
                ButtonView { label: "Rehacer"@, icon: "redo"@, action: "ctrl+y"@, danger: false, recommended: false },
                ButtonView { label: "Duplicar"@, icon: "duplicate"@, action: "ctrl+d"@, danger: false, recommended: false },
            ],
        },
        ProfileView {
            id: "coreldraw"@,
            matches: seq!["coreldraw"@],
            buttons: seq![
                ButtonView { label: "Deshacer"@, icon: "undo"@, action: "ctrl+z"@, danger: false, recommended: true },
                ButtonView { label: "Guardar"@, icon: "save"@, action: "ctrl+s"@, danger: false, recommended: true },
                ButtonView { label: "Copiar"@, icon: "copy"@, action: "ctrl+c"@, danger: false, recommended: true },
                ButtonView { label: "Pegar"@, icon: "paste"@, action: "ctrl+v"@, danger: false, recommended: true },
                ButtonView { label: "Rehacer"@, icon: "redo"@, action: "ctrl+shift+z"@, danger: false, recommended: false },
                ButtonView { label: "Duplicar"@, icon: "duplicate"@, action: "ctrl+d"@, danger: false, recommended: false },
            ],
        },
    ]
}


/// Part 9 of the catalogue, in catalogue order.
fn profiles_8() -> (r: Vec<Profile>)
    ensures
        profile_views(r@) == catalogue_8(),
        r@.len() == 10,
{
    proof {
        reveal(catalogue_8);
    }
    let p0 = profile(
                "soundcloud",
                &["soundcloud"],
                vec![
                    b("Play/Pausa", "play", "space"),
                    b("Siguiente", "next", "shift+right"),
                    b("Anterior", "prev", "shift+left"),
                    b("Me gusta", "star", "l"),
                ],
            );
    assert(p0@.matches =~= catalogue_8()[0].matches);
    assert(p0@.buttons =~= catalogue_8()[0].buttons);
    let p1 = profile(
                "potplayer",
                &["potplayer"],
                vec![
                    b("Play/Pausa", "play", "space"),
                    b("Pant. completa", "fullscreen", "enter"),
                    b("Silenciar", "mute", "m"),
                    b("+ Volumen", "vol", "up"),
                    b("- Volumen", "vol", "down"),
                ],
            );
    assert(p1@.matches =~= catalogue_8()[1].matches);
    assert(p1@.buttons =~= catalogue_8()[1].buttons);
    let p2 = profile(
                "primevideo",
                &["prime video"],
                vec![
                    b("Play/Pausa", "play", "space"),
                    b("Pant. completa", "fullscreen", "f"),
                    b("Silenciar", "mute", "m"),
                ],
            );
    assert(p2@.matches =~= catalogue_8()[2].matches);
    assert(p2@.buttons =~= catalogue_8()[2].buttons);
    let p3 = profile(
                "disney",
                &["disney+"],
                vec![
                    b("Play/Pausa", "play", "space"),
                    b("Pant. completa", "fullscreen", "f"),
                    b("Silenciar", "mute", "m"),
                ],
            );
    assert(p3@.matches =~= catalogue_8()[3].matches);
    assert(p3@.buttons =~= catalogue_8()[3].buttons);
    let p4 = profile(
                "gslides",
                &["google slides", "presentaciones de google"],
                vec![
                    b("Siguiente", "next", "right"),
                    b("Anterior", "prev", "left"),
                    b("Presentar", "play", "ctrl+f5"),
                    b("Negro", "dark", "b"),
                    b("Deshacer", "undo", "ctrl+z"),
                    bx("Blanco", "light", "w"),
                    bx("Nueva diap.", "new", "ctrl+m"),
                    bx("Copiar", "copy", "ctrl+c"),
                    bx("Pegar", "paste", "ctrl+v"),
                    bx("Rehacer", "redo", "ctrl+y"),
                    bx("Duplicar", "duplicate", "ctrl+d"),
                    bx("Imprimir", "print", "ctrl+p"),
                ],
            );
    assert(p4@.matches =~= catalogue_8()[4].matches);
    assert(p4@.buttons =~= catalogue_8()[4].buttons);
    let p5 = profile(
                "evernote",
                &["evernote"],
                vec![
                    b("Nueva nota", "new", "ctrl+n"),
                    b("Buscar", "find", "ctrl+shift+f"),
                    b("Negrita", "bold", "ctrl+b"),
                    b("Cursiva", "italic", "ctrl+i"),
                    bx("Subrayado", "underline", "ctrl+u"),
                    bx("Copiar", "copy", "ctrl+c"),
                    bx("Pegar", "paste", "ctrl+v"),
                ],
            );
    assert(p5@.matches =~= catalogue_8()[5].matches);
    assert(p5@.buttons =~= catalogue_8()[5].buttons);
    let p6 = profile(
                "joplin",
                &["joplin"],
                vec![
                    b("Nueva nota", "new", "ctrl+n"),
                    b("Buscar", "find", "ctrl+f"),
                    b("Negrita", "bold", "ctrl+b"),
                    b("Cursiva", "italic", "ctrl+i"),
                    bx("Enlace", "link", "ctrl+k"),
                    bx("Copiar", "copy", "ctrl+c"),
                    bx("Pegar", "paste", "ctrl+v"),
                ],
            );
    assert(p6@.matches =~= catalogue_8()[6].matches);
    assert(p6@.buttons =~= catalogue_8()[6].buttons);
    let p7 = profile(
                "rstudio",
                &["rstudio"],
                vec![
                    b("Ejecutar", "play", "ctrl+enter"),
                    b("Guardar", "save", "ctrl+s"),
                    b("Buscar", "find", "ctrl+f"),
                    b("Deshacer", "undo", "ctrl+z"),
                    bx("Comentar", "comment", "ctrl+shift+c"),
                    bx("Copiar", "copy", "ctrl+c"),
                    bx("Pegar", "paste", "ctrl+v"),
                ],
            );
    assert(p7@.matches =~= catalogue_8()[7].matches);
    assert(p7@.buttons =~= catalogue_8()[7].buttons);
    let p8 = profile(
                "visio",
                &["visio"],
                vec![
                    b("Guardar", "save", "ctrl+s"),
                    b("Deshacer", "undo", "ctrl+z"),
                    b("Copiar", "copy", "ctrl+c"),
                    b("Pegar", "paste", "ctrl+v"),
                    b("Buscar", "find", "ctrl+f"),
                    bx("Rehacer", "redo", "ctrl+y"),
                    bx("Duplicar", "duplicate", "ctrl+d"),
                ],
            );
    assert(p8@.matches =~= catalogue_8()[8].matches);
    assert(p8@.buttons =~= catalogue_8()[8].buttons);
    let p9 = profile(
                "coreldraw",
                &["coreldraw"],
                vec![
                    b("Deshacer", "undo", "ctrl+z"),
                    b("Guardar", "save", "ctrl+s"),
                    b("Copiar", "copy", "ctrl+c"),
                    b("Pegar", "paste", "ctrl+v"),
                    bx("Rehacer", "redo", "ctrl+shift+z"),
                    bx("Duplicar", "duplicate", "ctrl+d"),
                ],
            );
    assert(p9@.matches =~= catalogue_8()[9].matches);
    assert(p9@.buttons =~= catalogue_8()[9].buttons);
    let r = vec![p0, p1, p2, p3, p4, p5, p6, p7, p8, p9];
    assert(profile_views(r@) =~= catalogue_8());
    r
}

/// Part 10 of the catalogue, by contents.
#[verifier::opaque]
pub open spec fn catalogue_9() -> Seq<ProfileView> {
    seq![
        ProfileView {
            id: "kdenlive"@,
            matches: seq!["kdenlive"@],
            buttons: seq![
                ButtonView { label: "Play/Pausa"@, icon: "play"@, action: "space"@, danger: false, recommended: true },
                ButtonView { label: "Guardar"@, icon: "save"@, action: "ctrl+s"@, danger: false, recommended: true },
                ButtonView { label: "Deshacer"@, icon: "undo"@, action: "ctrl+z"@, danger: false, recommended: true },
                ButtonView { label: "Copiar"@, icon: "copy"@, action: "ctrl+c"@, danger: false, recommended: true },
                ButtonView { label: "Pegar"@, icon: "paste"@, action: "ctrl+v"@, danger: false, recommended: true },
                ButtonView { label: "Rehacer"@, icon: "redo"@, action: "ctrl+shift+z"@, danger: false, recommended: false },
            ],
        },
        ProfileView {
            id: "scribus"@,
            matches: seq!["scribus"@],
            buttons: seq![
                ButtonView { label: "Guardar"@, icon: "save"@, action: "ctrl+s"@, danger: false, recommended: true },
                ButtonView { label: "Deshacer"@, icon: "undo"@, action: "ctrl+z"@, danger: false, recommended: true },
                ButtonView { label: "Copiar"@, icon: "copy"@, action: "ctrl+c"@, danger: false, recommended: true },
                ButtonView { label: "Pegar"@, icon: "paste"@, action: "ctrl+v"@, danger: false, recommended: true },
                ButtonView { label: "Rehacer"@, icon: "redo"@, action: "ctrl+shift+z"@, danger: false, recommended: false },
                ButtonView { label: "Buscar"@, icon: "find"@, action: "ctrl+f"@, danger: false, recommended: false },
            ],
        },
        ProfileView {
            id: "mpchc"@,
            matches: seq!["mpc-hc"@, "mpc-be"@, "media player classic"@],
            buttons: seq![
                ButtonView { label: "Play/Pausa"@, icon: "play"@, action: "space"@, danger: false, recommended: true },
                ButtonView { label: "Pant. completa"@, icon: "fullscreen"@, action: "alt+enter"@, danger: false, recommended: true },
                ButtonView { label: "+ Volumen"@, icon: "vol"@, action: "up"@, danger: false, recommended: true },
                ButtonView { label: "- Volumen"@, icon: "vol"@, action: "down"@, danger: false, recommended: true },
            ],
        },
        ProfileView {
            id: "vimeo"@,
            matches: seq!["vimeo"@],
            buttons: seq![
                ButtonView { label: "Play/Pausa"@, icon: "play"@, action: "space"@, danger: false, recommended: true },
                ButtonView { label: "Pant. completa"@, icon: "fullscreen"@, action: "f"@, danger: false, recommended: true },
                ButtonView { label: "Silenciar"@, icon: "mute"@, action: "m"@, danger: false, recommended: true },
            ],
        },
        ProfileView {
            id: "crunchyroll"@,
            matches: seq!["crunchyroll"@],
            buttons: seq![
                ButtonView { label: "Play/Pausa"@, icon: "play"@, action: "space"@, danger: false, recommended: true },
                ButtonView { label: "Pant. completa"@, icon: "fullscreen"@, action: "f"@, danger: false, recommended: true },
                ButtonView { label: "Silenciar"@, icon: "mute"@, action: "m"@, danger: false, recommended: true },
            ],
        },
        ProfileView {
            id: "hbomax"@,
            matches: seq!["hbo max"@, "hbomax"@, "max -"@],
            buttons: seq![
                ButtonView { label: "Play/Pausa"@, icon: "play"@, action: "space"@, danger: false, recommended: true },
                ButtonView { label: "Pant. completa"@, icon: "fullscreen"@, action: "f"@, danger: false, recommended: true },
                ButtonView { label: "Silenciar"@, icon: "mute"@, action: "m"@, danger: false, recommended: true },
            ],
        },
        ProfileView {
            id: "insomnia"@,
            matches: seq!["insomnia"@],
            buttons: seq![
                ButtonView { label: "Enviar"@, icon: "send"@, action: "ctrl+enter"@, danger: false, recommended: true },
                ButtonView { label: "Nuevo"@, icon: "new"@, action: "ctrl+n"@, danger: false, recommended: true },
                ButtonView { label: "Buscar"@, icon: "find"@, action: "ctrl+f"@, danger: false, recommended: true },
                ButtonView { label: "Copiar"@, icon: "copy"@, action: "ctrl+c"@, danger: false, recommended: false },
                ButtonView { label: "Pegar"@, icon: "paste"@, action: "ctrl+v"@, danger: false, recommended: false },
            ],
        },
        ProfileView {
            id: "hulu"@,
            matches: seq!["hulu"@],
            buttons: seq![
                ButtonView { label: "Play/Pausa"@, icon: "play"@, action: "space"@, danger: false, recommended: true },
                ButtonView { label: "Pant. completa"@, icon: "fullscreen"@, action: "f"@, danger: false, recommended: true },
                ButtonView { label: "Silenciar"@, icon: "mute"@, action: "m"@, danger: false, recommended: true },
            ],
        },
        ProfileView {
            id: "plex"@,
            matches: seq!["plex"@],
            buttons: seq![
                ButtonView { label: "Play/Pausa"@, icon: "play"@, action: "space"@, danger: false, recommended: true },
                ButtonView { label: "Pant. completa"@, icon: "fullscreen"@, action: "f"@, danger: false, recommended: true },
                ButtonView { label: "Silenciar"@, icon: "mute"@, action: "m"@, danger: false, recommended: true },
            ],
        },
        ProfileView {
            id: "cubase"@,
            matches: seq!["cubase"@],
            buttons: seq![
                ButtonView { label: "Play/Pausa"@, icon: "play"@, action: "space"@, danger: false, recommended: true },
                ButtonView { label: "Guardar"@, icon: "save"@, action: "ctrl+s"@, danger: false, recommended: true },
                ButtonView { label: "Deshacer"@, icon: "undo"@, action: "ctrl+z"@, danger: false, recommended: true },
                ButtonView { label: "Copiar"@, icon: "copy"@, action: "ctrl+c"@, danger: false, recommended: true },
                ButtonView { label: "Pegar"@, icon: "paste"@, action: "ctrl+v"@, danger: false, recommended: true },
                ButtonView { label: "Rehacer"@, icon: "redo"@, action: "ctrl+shift+z"@, danger: false, recommended: false },
            ],
        },
    ]
}


/// Part 10 of the catalogue, in catalogue order.
fn profiles_9() -> (r: Vec<Profile>)
    ensures
        profile_views(r@) == catalogue_9(),
        r@.len() == 10,
{
    proof {
        reveal(catalogue_9);
    }
    let p0 = profile(
                "kdenlive",
                &["kdenlive"],
                vec![
                    b("Play/Pausa", "play", "space"),
                    b("Guardar", "save", "ctrl+s"),
                    b("Deshacer", "undo", "ctrl+z"),
                    b("Copiar", "copy", "ctrl+c"),
                    b("Pegar", "paste", "ctrl+v"),
                    bx("Rehacer", "redo", "ctrl+shift+z"),
                ],
            );
    assert(p0@.matches =~= catalogue_9()[0].matches);
    assert(p0@.buttons =~= catalogue_9()[0].buttons);
    let p1 = profile(
                "scribus",
                &["scribus"],
                vec![
                    b("Guardar", "save", "ctrl+s"),
                    b("Deshacer", "undo", "ctrl+z"),
                    b("Copiar", "copy", "ctrl+c"),
                    b("Pegar", "paste", "ctrl+v"),
                    bx("Rehacer", "redo", "ctrl+shift+z"),
                    bx("Buscar", "find", "ctrl+f"),
                ],
            );
    assert(p1@.matches =~= catalogue_9()[1].matches);
    assert(p1@.buttons =~= catalogue_9()[1].buttons);
    let p2 = profile(
                "mpchc",
                &["mpc-hc", "mpc-be", "media player classic"],
                vec![
                    b("Play/Pausa", "play", "space"),
                    b("Pant. completa", "fullscreen", "alt+enter"),
                    b("+ Volumen", "vol", "up"),
                    b("- Volumen", "vol", "down"),
                ],
            );
    assert(p2@.matches =~= catalogue_9()[2].matches);
    assert(p2@.buttons =~= catalogue_9()[2].buttons);
    let p3 = profile(
                "vimeo",
                &["vimeo"],
                vec![
                    b("Play/Pausa", "play", "space"),
                    b("Pant. completa", "fullscreen", "f"),
                    b("Silenciar", "mute", "m"),
                ],
            );
    assert(p3@.matches =~= catalogue_9()[3].matches);
    assert(p3@.buttons =~= catalogue_9()[3].buttons);
    let p4 = profile(
                "crunchyroll",
                &["crunchyroll"],
                vec![
                    b("Play/Pausa", "play", "space"),
                    b("Pant. completa", "fullscreen", "f"),
                    b("Silenciar", "mute", "m"),
                ],
            );
    assert(p4@.matches =~= catalogue_9()[4].matches);
    assert(p4@.buttons =~= catalogue_9()[4].buttons);
    let p5 = profile(
                "hbomax",
                &["hbo max", "hbomax", "max -"],
                vec![
                    b("Play/Pausa", "play", "space"),
                    b("Pant. completa", "fullscreen", "f"),
                    b("Silenciar", "mute", "m"),
                ],
            );
    assert(p5@.matches =~= catalogue_9()[5].matches);
    assert(p5@.buttons =~= catalogue_9()[5].buttons);
    let p6 = profile(
                "insomnia",
                &["insomnia"],
                vec![
                    b("Enviar", "send", "ctrl+enter"),
                    b("Nuevo", "new", "ctrl+n"),
                    b("Buscar", "find", "ctrl+f"),
                    bx("Copiar", "copy", "ctrl+c"),
                    bx("Pegar", "paste", "ctrl+v"),
                ],
            );
    assert(p6@.matches =~= catalogue_9()[6].matches);
    assert(p6@.buttons =~= catalogue_9()[6].buttons);
    let p7 = profile(
                "hulu",
                &["hulu"],
                vec![
                    b("Play/Pausa", "play", "space"),
                    b("Pant. completa", "fullscreen", "f"),
                    b("Silenciar", "mute", "m"),
                ],
            );
    assert(p7@.matches =~= catalogue_9()[7].matches);
    assert(p7@.buttons =~= catalogue_9()[7].buttons);
    let p8 = profile(
                "plex",
                &["plex"],
                vec![
                    b("Play/Pausa", "play", "space"),
                    b("Pant. completa", "fullscreen", "f"),
                    b("Silenciar", "mute", "m"),
                ],
            );
    assert(p8@.matches =~= catalogue_9()[8].matches);
    assert(p8@.buttons =~= catalogue_9()[8].buttons);
    let p9 = profile(
                "cubase",
                &["cubase"],
                vec![
                    b("Play/Pausa", "play", "space"),
                    b("Guardar", "save", "ctrl+s"),
                    b("Deshacer", "undo", "ctrl+z"),
                    b("Copiar", "copy", "ctrl+c"),
                    b("Pegar", "paste", "ctrl+v"),
                    bx("Rehacer", "redo", "ctrl+shift+z"),
                ],
            );
    assert(p9@.matches =~= catalogue_9()[9].matches);
    assert(p9@.buttons =~= catalogue_9()[9].buttons);
    let r = vec![p0, p1, p2, p3, p4, p5, p6, p7, p8, p9];
    assert(profile_views(r@) =~= catalogue_9());
    r
}

/// Part 11 of the catalogue, by contents.
#[verifier::opaque]
pub open spec fn catalogue_10() -> Seq<ProfileView> {
    seq![
        ProfileView {
            id: "camtasia"@,
            matches: seq!["camtasia"@],
            buttons: seq![
                ButtonView { label: "Play/Pausa"@, icon: "play"@, action: "space"@, danger: false, recommended: true },
                ButtonView { label: "Guardar"@, icon: "save"@, action: "ctrl+s"@, danger: false, recommended: true },
                ButtonView { label: "Deshacer"@, icon: "undo"@, action: "ctrl+z"@, danger: false, recommended: true },
                ButtonView { label: "Copiar"@, icon: "copy"@, action: "ctrl+c"@, danger: false, recommended: true },
                ButtonView { label: "Pegar"@, icon: "paste"@, action: "ctrl+v"@, danger: false, recommended: true },
                ButtonView { label: "Rehacer"@, icon: "redo"@, action: "ctrl+y"@, danger: false, recommended: false },
            ],
        },
        ProfileView {
            id: "filmora"@,
            matches: seq!["filmora"@],
            buttons: seq![
                ButtonView { label: "Play/Pausa"@, icon: "play"@, action: "space"@, danger: false, recommended: true },
                ButtonView { label: "Guardar"@, icon: "save"@, action: "ctrl+s"@, danger: false, recommended: true },
                ButtonView { label: "Deshacer"@, icon: "undo"@, action: "ctrl+z"@, danger: false, recommended: true },
                ButtonView { label: "Eliminar"@, icon: "delete"@, action: "delete"@, danger: false, recommended: true },
                ButtonView { label: "Copiar"@, icon: "copy"@, action: "ctrl+c"@, danger: false, recommended: false },
                ButtonView { label: "Pegar"@, icon: "paste"@, action: "ctrl+v"@, danger: false, recommended: false },
                ButtonView { label: "Rehacer"@, icon: "redo"@, action: "ctrl+y"@, danger: false, recommended: false },
            ],
        },
        ProfileView {
            id: "vegas"@,
            matches: seq!["vegas pro"@],
            buttons: seq![
                ButtonView { label: "Play/Pausa"@, icon: "play"@, action: "space"@, danger: false, recommended: true },
                ButtonView { label: "Dividir"@, icon: "cut"@, action: "s"@, danger: false, recommended: true },
                ButtonView { label: "Guardar"@, icon: "save"@, action: "ctrl+s"@, danger: false, recommended: true },
                ButtonView { label: "Deshacer"@, icon: "undo"@, action: "ctrl+z"@, danger: false, recommended: true },
                ButtonView { label: "Copiar"@, icon: "copy"@, action: "ctrl+c"@, danger: false, recommended: false },
                ButtonView { label: "Pegar"@, icon: "paste"@, action: "ctrl+v"@, danger: false, recommended: false },
                ButtonView { label: "Rehacer"@, icon: "redo"@, action: "ctrl+shift+z"@, danger: false, recommended: false },
            ],
        },
        ProfileView {
            id: "geany"@,
            matches: seq!["geany"@],
            buttons: seq![
                ButtonView { label: "Guardar"@, icon: "save"@, action: "ctrl+s"@, danger: false, recommended: true },
                ButtonView { label: "Buscar"@, icon: "find"@, action: "ctrl+f"@, danger: false, recommended: true },
                ButtonView { label: "Reemplazar"@, icon: "replace"@, action: "ctrl+h"@, danger: false, recommended: true },
                ButtonView { label: "Ejecutar"@, icon: "play"@, action: "f5"@, danger: false, recommended: true },
                ButtonView { label: "Deshacer"@, icon: "undo"@, action: "ctrl+z"@, danger: false, recommended: true },
                ButtonView { label: "Comentar"@, icon: "comment"@, action: "ctrl+e"@, danger: false, recommended: false },
                ButtonView { label: "Ir a línea"@, icon: "find"@, action: "ctrl+l"@, danger: false, recommended: false },
            ],
        },
        ProfileView {
            id: "spyder"@,
            matches: seq!["spyder"@],
            buttons: seq![
                ButtonView { label: "Ejecutar"@, icon: "play"@, action: "f5"@, danger: false, recommended: true },
                ButtonView { label: "Guardar"@, icon: "save"@, action: "ctrl+s"@, danger: false, recommended: true },
                ButtonView { label: "Buscar"@, icon: "find"@, action: "ctrl+f"@, danger: false, recommended: true },
                ButtonView { label: "Deshacer"@, icon: "undo"@, action: "ctrl+z"@, danger: false, recommended: true },
                ButtonView { label: "Comentar"@, icon: "comment"@, action: "ctrl+1"@, danger: false, recommended: false },
                ButtonView { label: "Copiar"@, icon: "copy"@, action: "ctrl+c"@, danger: false, recommended: false },
                ButtonView { label: "Pegar"@, icon: "paste"@, action: "ctrl+v"@, danger: false, recommended: false },
            ],
        },
        ProfileView {
            id: "autocad"@,
            matches: seq!["autocad"@],
            buttons: seq![
                ButtonView { label: "Guardar"@, icon: "save"@, action: "ctrl+s"@, danger: false, recommended: true },
                ButtonView { label: "Deshacer"@, icon: "undo"@, action: "ctrl+z"@, danger: false, recommended: true },
                ButtonView { label: "Copiar"@, icon: "copy"@, action: "ctrl+c"@, danger: false, recommended: true },
                ButtonView { label: "Pegar"@, icon: "paste"@, action: "ctrl+v"@, danger: false, recommended: true },
                ButtonView { label: "Rehacer"@, icon: "redo"@, action: "ctrl+y"@, danger: false, recommended: false },
                ButtonView { label: "Buscar"@, icon: "find"@, action: "ctrl+f"@, danger: false, recommended: false },
            ],
        },
        ProfileView {
            id: "obs"@,
            matches: seq!["obs studio"@, "obs64"@],
            buttons: seq![
                ButtonView { label: "Grabar"@, icon: "record"@, action: "obs:record"@, danger: false, recommended: true },
                ButtonView { label: "Directo"@, icon: "stream"@, action: "obs:stream"@, danger: true, recommended: true },
                ButtonView { label: "Mic"@, icon: "mic"@, action: "obs:mic"@, danger: false, recommended: true },
                ButtonView { label: "Clip"@, icon: "clip"@, action: "obs:replay"@, danger: false, recommended: true },
                ButtonView { label: "Buffer clips"@, icon: "clip"@, action: "obs:replaybuffer"@, danger: false, recommended: false },
            ],
        },
        ProfileView {
            id: "steam"@,
            matches: seq!["steam"@],
            buttons: seq![
                ButtonView { label: "Overlay"@, icon: "apps"@, action: "shift+tab"@, danger: false, recommended: true },
                ButtonView { label: "Captura"@, icon: "screenshot"@, action: "f12"@, danger: false, recommended: true },
            ],
        },
        ProfileView {
            id: "browser"@,
            matches: seq!["chrome"@, "edge"@, "firefox"@, "brave"@, "opera"@, "vivaldi"@],
            buttons: seq![
                ButtonView { label: "Atrás"@, icon: "back"@, action: "alt+left"@, danger: false, recommended: true },
                ButtonView { label: "Adelante"@, icon: "fwdnav"@, action: "alt+right"@, danger: false, recommended: true },
                ButtonView { label: "Recargar"@, icon: "refresh"@, action: "f5"@, danger: false, recommended: true },
                ButtonView { label: "Nueva pestaña"@, icon: "new"@, action: "ctrl+t"@, danger: false, recommended: true },
                ButtonView { label: "Subir"@, icon: "scrollup"@, action: "scroll:-3"@, danger: false, recommended: false },
                ButtonView { label: "Bajar"@, icon: "scrolldown"@, action: "scroll:3"@, danger: false, recommended: false },
                ButtonView { label: "Cerrar pestaña"@, icon: "close"@, action: "ctrl+w"@, danger: false, recommended: false },
                ButtonView { label: "Buscar"@, icon: "find"@, action: "ctrl+f"@, danger: false, recommended: false },
                ButtonView { label: "Copiar"@, icon: "copy"@, action: "ctrl+c"@, danger: false, recommended: false },
                ButtonView { label: "Pegar"@, icon: "paste"@, action: "ctrl+v"@, danger: false, recommended: false },
                ButtonView { label: "Reabrir pestaña"@, icon: "redo"@, action: "ctrl+shift+t"@, danger: false, recommended: false },
                ButtonView { label: "Favorito"@, icon: "star"@, action: "ctrl+d"@, danger: false, recommended: false },
                ButtonView { label: "Historial"@, icon: "history"@, action: "ctrl+h"@, danger: false, recommended: false },
                ButtonView { label: "Descargas"@, icon: "download"@, action: "ctrl+j"@, danger: false, recommended: false },
                ButtonView { label: "Incógnito"@, icon: "new"@, action: "ctrl+shift+n"@, danger: false, recommended: false },
                ButtonView { label: "Zoom +"@, icon: "zoomin"@, action: "ctrl+add"@, danger: false, recommended: false },
                ButtonView { label: "Zoom -"@, icon: "zoomout"@, action: "ctrl+subtract"@, danger: false, recommended: false },
                ButtonView { label: "Dictar"@, icon: "mic"@, action: "dictate"@, danger: false, recommended: false },
            ],
        },
        ProfileView {
            id: "generic"@,
            matches: Seq::empty(),
            buttons: seq![
                ButtonView { label: "Copiar"@, icon: "copy"@, action: "ctrl+c"@, danger: false, recommended: true },
                ButtonView { label: "Pegar"@, icon: "paste"@, action: "ctrl+v"@, danger: false, recommended: true },
                ButtonView { label: "Deshacer"@, icon: "undo"@, action: "ctrl+z"@, danger: false, recommended: true },
                ButtonView { label: "Clip 30s"@, icon: "clip"@, action: "win+alt+g"@, danger: false, recommended: false },
                ButtonView { label: "Grabar juego"@, icon: "record"@, action: "win+alt+r"@, danger: false, recommended: false },
                ButtonView { label: "Game Bar"@, icon: "apps"@, action: "win+g"@, danger: false, recommended: false },
                ButtonView { label: "Cortar"@, icon: "cut"@, action: "ctrl+x"@, danger: false, recommended: false },
                ButtonView { label: "Rehacer"@, icon: "redo"@, action: "ctrl+y"@, danger: false, recommended: false },
                ButtonView { label: "Guardar"@, icon: "save"@, action: "ctrl+s"@, danger: false, recommended: false },
                ButtonView { label: "Buscar"@, icon: "find"@, action: "ctrl+f"@, danger: false, recommended: false },
                ButtonView { label: "Imprimir"@, icon: "print"@, action: "ctrl+p"@, danger: false, recommended: false },
            ],
        },
    ]
}

/// Part 11 of the catalogue, in catalogue order.
fn profiles_10() -> (r: Vec<Profile>)
    ensures
        profile_views(r@) == catalogue_10(),
        r@.len() == 10,
{
    proof {
        reveal(catalogue_10);
    }
    let p0 = profile(
                "camtasia",
                &["camtasia"],
                vec![
                    b("Play/Pausa", "play", "space"),
                    b("Guardar", "save", "ctrl+s"),
                    b("Deshacer", "undo", "ctrl+z"),
                    b("Copiar", "copy", "ctrl+c"),
                    b("Pegar", "paste", "ctrl+v"),
                    bx("Rehacer", "redo", "ctrl+y"),
                ],
            );
    assert(p0@.matches =~= catalogue_10()[0].matches);
    assert(p0@.buttons =~= catalogue_10()[0].buttons);
    let p1 = profile(
                "filmora",
                &["filmora"],
                vec![
                    b("Play/Pausa", "play", "space"),
                    b("Guardar", "save", "ctrl+s"),
                    b("Deshacer", "undo", "ctrl+z"),
                    b("Eliminar", "delete", "delete"),
                    bx("Copiar", "copy", "ctrl+c"),
                    bx("Pegar", "paste", "ctrl+v"),
                    bx("Rehacer", "redo", "ctrl+y"),
                ],
            );
    assert(p1@.matches =~= catalogue_10()[1].matches);
    assert(p1@.buttons =~= catalogue_10()[1].buttons);
    let p2 = profile(
                "vegas",
                &["vegas pro"],
                vec![
                    b("Play/Pausa", "play", "space"),
                    b("Dividir", "cut", "s"),
                    b("Guardar", "save", "ctrl+s"),
                    b("Deshacer", "undo", "ctrl+z"),
                    bx("Copiar", "copy", "ctrl+c"),
                    bx("Pegar", "paste", "ctrl+v"),
                    bx("Rehacer", "redo", "ctrl+shift+z"),
                ],
            );
    assert(p2@.matches =~= catalogue_10()[2].matches);
    assert(p2@.buttons =~= catalogue_10()[2].buttons);
    let p3 = profile(
                "geany",
                &["geany"],
                vec![
                    b("Guardar", "save", "ctrl+s"),
                    b("Buscar", "find", "ctrl+f"),
                    b("Reemplazar", "replace", "ctrl+h"),
                    b("Ejecutar", "play", "f5"),
                    b("Deshacer", "undo", "ctrl+z"),
                    bx("Comentar", "comment", "ctrl+e"),
                    bx("Ir a línea", "find", "ctrl+l"),
                ],
            );
    assert(p3@.matches =~= catalogue_10()[3].matches);
    assert(p3@.buttons =~= catalogue_10()[3].buttons);
    let p4 = profile(
                "spyder",
                &["spyder"],
                vec![
                    b("Ejecutar", "play", "f5"),
                    b("Guardar", "save", "ctrl+s"),
                    b("Buscar", "find", "ctrl+f"),
                    b("Deshacer", "undo", "ctrl+z"),
                    bx("Comentar", "comment", "ctrl+1"),
                    bx("Copiar", "copy", "ctrl+c"),
                    bx("Pegar", "paste", "ctrl+v"),
                ],
            );
    assert(p4@.matches =~= catalogue_10()[4].matches);
    assert(p4@.buttons =~= catalogue_10()[4].buttons);
    let p5 = profile(
                "autocad",
                &["autocad"],
                vec![
                    b("Guardar", "save", "ctrl+s"),
                    b("Deshacer", "undo", "ctrl+z"),
                    b("Copiar", "copy", "ctrl+c"),
                    b("Pegar", "paste", "ctrl+v"),
                    bx("Rehacer", "redo", "ctrl+y"),
                    bx("Buscar", "find", "ctrl+f"),
                ],
            );
    assert(p5@.matches =~= catalogue_10()[5].matches);
    assert(p5@.buttons =~= catalogue_10()[5].buttons);
    let p6 = profile(
                "obs",
                &["obs studio", "obs64"],
                vec![
                    b("Grabar", "record", "obs:record"),
                    bd("Directo", "stream", "obs:stream"),
                    b("Mic", "mic", "obs:mic"),
                    b("Clip", "clip", "obs:replay"),
                    bx("Buffer clips", "clip", "obs:replaybuffer"),
                ],
            );
    assert(p6@.matches =~= catalogue_10()[6].matches);
    assert(p6@.buttons =~= catalogue_10()[6].buttons);
    let p7 = profile(
                "steam",
                &["steam"],
                vec![
                    b("Overlay", "apps", "shift+tab"),
                    b("Captura", "screenshot", "f12"),
                ],
            );
    assert(p7@.matches =~= catalogue_10()[7].matches);
    assert(p7@.buttons =~= catalogue_10()[7].buttons);
    let p8 = profile(
                "browser",
                &["chrome", "edge", "firefox", "brave", "opera", "vivaldi"],
                vec![
                    b("Atrás", "back", "alt+left"),
                    b("Adelante", "fwdnav", "alt+right"),
                    b("Recargar", "refresh", "f5"),
                    b("Nueva pestaña", "new", "ctrl+t"),
                    bx("Subir", "scrollup", "scroll:-3"),
                    bx("Bajar", "scrolldown", "scroll:3"),
                    bx("Cerrar pestaña", "close", "ctrl+w"),
                    bx("Buscar", "find", "ctrl+f"),
                    bx("Copiar", "copy", "ctrl+c"),
                    bx("Pegar", "paste", "ctrl+v"),
                    bx("Reabrir pestaña", "redo", "ctrl+shift+t"),
                    bx("Favorito", "star", "ctrl+d"),
                    bx("Historial", "history", "ctrl+h"),
                    bx("Descargas", "download", "ctrl+j"),
                    bx("Incógnito", "new", "ctrl+shift+n"),
                    bx("Zoom +", "zoomin", "ctrl+add"),
                    bx("Zoom -", "zoomout", "ctrl+subtract"),
                    bx("Dictar", "mic", "dictate"),
                ],
            );
    assert(p8@.matches =~= catalogue_10()[8].matches);
    assert(p8@.buttons =~= catalogue_10()[8].buttons);
    let p9 = profile(
                "generic",
                &[],
                vec![
                    b("Copiar", "copy", "ctrl+c"),
                    b("Pegar", "paste", "ctrl+v"),
                    b("Deshacer", "undo", "ctrl+z"),
                    bx("Clip 30s", "clip", "win+alt+g"),
                    bx("Grabar juego", "record", "win+alt+r"),
                    bx("Game Bar", "apps", "win+g"),
                    bx("Cortar", "cut", "ctrl+x"),
                    bx("Rehacer", "redo", "ctrl+y"),
                    bx("Guardar", "save", "ctrl+s"),
                    bx("Buscar", "find", "ctrl+f"),
                    bx("Imprimir", "print", "ctrl+p"),
                ],
            );
    assert(p9@.matches =~= catalogue_10()[9].matches);
    assert(p9@.buttons =~= catalogue_10()[9].buttons);
    let r = vec![p0, p1, p2, p3, p4, p5, p6, p7, p8, p9];
    assert(profile_views(r@) =~= catalogue_10());
    r
}

/// How many profiles the catalogue holds.
pub const PROFILE_COUNT: usize = 110;

/// The built-in catalogue, by contents, in order.
pub open spec fn catalogue() -> Seq<ProfileView> {
    catalogue_0() + catalogue_1() + catalogue_2() + catalogue_3() + catalogue_4() + catalogue_5() + catalogue_6() + catalogue_7() + catalogue_8() + catalogue_9() + catalogue_10()
}

/// The built-in profile catalogue, most specific first, the fallback last.
pub fn default_profiles() -> (r: Vec<Profile>)
    ensures
        profile_views(r@) == catalogue(),
        r@.len() == PROFILE_COUNT,
{
    let mut list: Vec<Profile> = Vec::new();
    let ghost mut so_far: Seq<ProfileView> = Seq::empty();
    let mut p = profiles_0();
    proof {
        so_far = so_far + catalogue_0();
    }
    assert(profile_views(list@ + p@) =~= profile_views(list@) + profile_views(p@));
    list.append(&mut p);
    assert(profile_views(list@) =~= so_far);
    let mut p = profiles_1();
    proof {
        so_far = so_far + catalogue_1();
    }
    assert(profile_views(list@ + p@) =~= profile_views(list@) + profile_views(p@));
    list.append(&mut p);
    assert(profile_views(list@) =~= so_far);
    let mut p = profiles_2();
    proof {
        so_far = so_far + catalogue_2();
    }
    assert(profile_views(list@ + p@) =~= profile_views(list@) + profile_views(p@));
    list.append(&mut p);
    assert(profile_views(list@) =~= so_far);
    let mut p = profiles_3();
    proof {
        so_far = so_far + catalogue_3();
    }
    assert(profile_views(list@ + p@) =~= profile_views(list@) + profile_views(p@));
    list.append(&mut p);
    assert(profile_views(list@) =~= so_far);
    let mut p = profiles_4();
    proof {
        so_far = so_far + catalogue_4();
    }
    assert(profile_views(list@ + p@) =~= profile_views(list@) + profile_views(p@));
    list.append(&mut p);
    assert(profile_views(list@) =~= so_far);
    let mut p = profiles_5();
    proof {
        so_far = so_far + catalogue_5();
    }
    assert(profile_views(list@ + p@) =~= profile_views(list@) + profile_views(p@));
    list.append(&mut p);
    assert(profile_views(list@) =~= so_far);
    let mut p = profiles_6();
    proof {
        so_far = so_far + catalogue_6();
    }
    assert(profile_views(list@ + p@) =~= profile_views(list@) + profile_views(p@));
    list.append(&mut p);
    assert(profile_views(list@) =~= so_far);
    let mut p = profiles_7();
    proof {
        so_far = so_far + catalogue_7();
    }
    assert(profile_views(list@ + p@) =~= profile_views(list@) + profile_views(p@));
    list.append(&mut p);
    assert(profile_views(list@) =~= so_far);
    let mut p = profiles_8();
    proof {
        so_far = so_far + catalogue_8();
    }
    assert(profile_views(list@ + p@) =~= profile_views(list@) + profile_views(p@));
    list.append(&mut p);
    assert(profile_views(list@) =~= so_far);
    let mut p = profiles_9();
    proof {
        so_far = so_far + catalogue_9();
    }
    assert(profile_views(list@ + p@) =~= profile_views(list@) + profile_views(p@));
    list.append(&mut p);
    assert(profile_views(list@) =~= so_far);
    let mut p = profiles_10();
    proof {
        so_far = so_far + catalogue_10();
    }
    assert(profile_views(list@ + p@) =~= profile_views(list@) + profile_views(p@));
    list.append(&mut p);
    assert(profile_views(list@) =~= so_far);
    assert(so_far =~= catalogue());
    list
}

proof fn lemma_words_0()
    ensures
        catalogue_0().len() == 10,
        forall|i: int| 0 <= i < 10 ==> (#[trigger] catalogue_0()[i]).matches.len() > 0,
{
    reveal(catalogue_0);
}

proof fn lemma_words_1()
    ensures
        catalogue_1().len() == 10,
        forall|i: int| 0 <= i < 10 ==> (#[trigger] catalogue_1()[i]).matches.len() > 0,
{
    reveal(catalogue_1);
}

proof fn lemma_words_2()
    ensures
        catalogue_2().len() == 10,
        forall|i: int| 0 <= i < 10 ==> (#[trigger] catalogue_2()[i]).matches.len() > 0,
{
    reveal(catalogue_2);
}

proof fn lemma_words_3()
    ensures
        catalogue_3().len() == 10,
        forall|i: int| 0 <= i < 10 ==> (#[trigger] catalogue_3()[i]).matches.len() > 0,
{
    reveal(catalogue_3);
}

proof fn lemma_words_4()
    ensures
        catalogue_4().len() == 10,
        forall|i: int| 0 <= i < 10 ==> (#[trigger] catalogue_4()[i]).matches.len() > 0,
{
    reveal(catalogue_4);
}

proof fn lemma_words_5()
    ensures
        catalogue_5().len() == 10,
        forall|i: int| 0 <= i < 10 ==> (#[trigger] catalogue_5()[i]).matches.len() > 0,
{
    reveal(catalogue_5);
}

proof fn lemma_words_6()
    ensures
        catalogue_6().len() == 10,
        forall|i: int| 0 <= i < 10 ==> (#[trigger] catalogue_6()[i]).matches.len() > 0,
{
    reveal(catalogue_6);
}

proof fn lemma_words_7()
    ensures
        catalogue_7().len() == 10,
        forall|i: int| 0 <= i < 10 ==> (#[trigger] catalogue_7()[i]).matches.len() > 0,
{
    reveal(catalogue_7);
}

proof fn lemma_words_8()
    ensures
        catalogue_8().len() == 10,
        forall|i: int| 0 <= i < 10 ==> (#[trigger] catalogue_8()[i]).matches.len() > 0,
{
    reveal(catalogue_8);
}

proof fn lemma_words_9()
    ensures
        catalogue_9().len() == 10,
        forall|i: int| 0 <= i < 10 ==> (#[trigger] catalogue_9()[i]).matches.len() > 0,
{
    reveal(catalogue_9);
}

proof fn lemma_words_10()
    ensures
        catalogue_10().len() == 10,
        forall|i: int| 0 <= i < 9 ==> (#[trigger] catalogue_10()[i]).matches.len() > 0,
        catalogue_10()[9].id == "generic"@,
        catalogue_10()[9].matches.len() == 0,
{
    reveal(catalogue_10);
}

/// From `j` on, the first profile without words is the last one when only the last one has none.
proof fn lemma_first_fallback_is_last(ps: Seq<ProfileView>, j: int)
    requires
        0 <= j < ps.len(),
        ps[ps.len() - 1].matches.len() == 0,
        forall|i: int| j <= i < ps.len() - 1 ==> (#[trigger] ps[i]).matches.len() > 0,
    ensures
        first_fallback(ps, j) == Some(ps.len() - 1),
    decreases ps.len() - j,
{
    if j < ps.len() - 1 {
        lemma_first_fallback_is_last(ps, j + 1);
    }
}

/// The catalogue ends with its only profile that matches no words, `generic`: every other profile
/// is chosen by what it matches, and this one is the fallback when nothing matches.
pub proof fn law_the_fallback_comes_last()
    ensures
        catalogue().len() == PROFILE_COUNT,
        catalogue()[PROFILE_COUNT - 1].id == "generic"@,
        catalogue()[PROFILE_COUNT - 1].matches.len() == 0,
        forall|i: int| 0 <= i < PROFILE_COUNT - 1 ==> (#[trigger] catalogue()[i]).matches.len() > 0,
        first_fallback(catalogue(), 0) == Some(PROFILE_COUNT - 1),
{
    lemma_words_0();
    lemma_words_1();
    lemma_words_2();
    lemma_words_3();
    lemma_words_4();
    lemma_words_5();
    lemma_words_6();
    lemma_words_7();
    lemma_words_8();
    lemma_words_9();
    lemma_words_10();
    let ghost mut so_far: Seq<ProfileView> = Seq::empty();
    so_far = so_far + catalogue_0();
    assert(so_far.len() == 10);
    assert(forall|i: int| 0 <= i < 10 ==> (#[trigger] so_far[i]).matches.len() > 0);
    so_far = so_far + catalogue_1();
    assert(so_far.len() == 20);
    assert(forall|i: int| 0 <= i < 20 ==> (#[trigger] so_far[i]).matches.len() > 0);
    so_far = so_far + catalogue_2();
    assert(so_far.len() == 30);
    assert(forall|i: int| 0 <= i < 30 ==> (#[trigger] so_far[i]).matches.len() > 0);
    so_far = so_far + catalogue_3();
    assert(so_far.len() == 40);
    assert(forall|i: int| 0 <= i < 40 ==> (#[trigger] so_far[i]).matches.len() > 0);
    so_far = so_far + catalogue_4();
    assert(so_far.len() == 50);
    assert(forall|i: int| 0 <= i < 50 ==> (#[trigger] so_far[i]).matches.len() > 0);
    so_far = so_far + catalogue_5();
    assert(so_far.len() == 60);
    assert(forall|i: int| 0 <= i < 60 ==> (#[trigger] so_far[i]).matches.len() > 0);
    so_far = so_far + catalogue_6();
    assert(so_far.len() == 70);
    assert(forall|i: int| 0 <= i < 70 ==> (#[trigger] so_far[i]).matches.len() > 0);
    so_far = so_far + catalogue_7();
    assert(so_far.len() == 80);
    assert(forall|i: int| 0 <= i < 80 ==> (#[trigger] so_far[i]).matches.len() > 0);
    so_far = so_far + catalogue_8();
    assert(so_far.len() == 90);
    assert(forall|i: int| 0 <= i < 90 ==> (#[trigger] so_far[i]).matches.len() > 0);
    so_far = so_far + catalogue_9();
    assert(so_far.len() == 100);
    assert(forall|i: int| 0 <= i < 100 ==> (#[trigger] so_far[i]).matches.len() > 0);
    let whole = so_far + catalogue_10();
    assert(whole =~= catalogue());
    assert(forall|i: int| 0 <= i < 109 ==> (#[trigger] whole[i]).matches.len() > 0) by {
        assert forall|i: int| 0 <= i < 109 implies (#[trigger] whole[i]).matches.len() > 0 by {
            if i >= 100 {
                assert(whole[i] == catalogue_10()[i - 100]);
            } else {
                assert(whole[i] == so_far[i]);
            }
        }
    }
    lemma_first_fallback_is_last(catalogue(), 0);
}

} // verus!
