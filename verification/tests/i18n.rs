use kiboard::config::{Button, Profile};
use kiboard::i18n::{entries, has_entry, set_locale, tr, Lang};

fn b(label: &str, icon: &str, action: &str) -> Button {
    Button { label: label.into(), icon: icon.into(), action: action.into(), danger: false, recommended: true }
}
fn bd(label: &str, icon: &str, action: &str) -> Button {
    Button { label: label.into(), icon: icon.into(), action: action.into(), danger: true, recommended: true }
}
fn bx(label: &str, icon: &str, action: &str) -> Button {
    Button { label: label.into(), icon: icon.into(), action: action.into(), danger: false, recommended: false }
}
fn profile(id: &str, matches: &[&str], buttons: Vec<Button>) -> Profile {
    Profile { id: id.into(), matches: matches.iter().map(|s| s.to_string()).collect(), buttons }
}

/// The first host's built-in catalogue, whose labels the translation table was written for.
fn default_profiles() -> Vec<Profile> {
    let mut list = vec![
        // --- Pestañas de Chrome/navegador (coinciden por TÍTULO de la ventana) ---
        profile("gsheets", &["google sheets", "hojas de cálculo"], vec![
            b("Negrita", "bold", "ctrl+b"), b("Buscar", "find", "ctrl+f"),
            b("Deshacer", "undo", "ctrl+z"), b("Rehacer", "redo", "ctrl+y"),
            b("Copiar", "copy", "ctrl+c"), b("Pegar", "paste", "ctrl+v"),
            bx("Cursiva", "italic", "ctrl+i"), bx("Subrayado", "underline", "ctrl+u"),
            bx("Cortar", "cut", "ctrl+x"), bx("Imprimir", "print", "ctrl+p"),
        ]),
        profile("gdocs", &["google docs", "documentos de google"], vec![
            b("Negrita", "bold", "ctrl+b"), b("Buscar", "find", "ctrl+f"),
            b("Deshacer", "undo", "ctrl+z"), b("Copiar", "copy", "ctrl+c"), b("Pegar", "paste", "ctrl+v"),
            bx("Cursiva", "italic", "ctrl+i"), bx("Subrayado", "underline", "ctrl+u"),
            bx("Enlace", "link", "ctrl+k"), bx("Rehacer", "redo", "ctrl+y"), bx("Imprimir", "print", "ctrl+p"),
        ]),
        profile("gdrive", &["google drive", "mi unidad"], vec![
            b("Buscar", "find", "ctrl+f"), b("Nueva pestaña", "new", "ctrl+t"),
            b("Copiar", "copy", "ctrl+c"), b("Pegar", "paste", "ctrl+v"),
            bx("Nueva carpeta", "newfolder", "shift+f"), bx("Renombrar", "rename", "n"),
        ]),
        profile("gmail", &["gmail"], vec![
            b("Redactar", "new", "c"), b("Buscar", "find", "/"),
            b("Responder", "reply", "r"), b("Archivar", "archive", "e"),
            bx("Resp. todos", "replyall", "a"), bx("Reenviar", "forward", "f"),
            bx("Eliminar", "delete", "#"), bx("Destacar", "star", "s"), bx("Enviar", "send", "ctrl+enter"),
        ]),
        profile("youtube", &["youtube"], vec![
            b("Play/Pausa", "play", "k"), b("Silenciar", "mute", "m"),
            b("Pantalla completa", "video", "f"), b("Captura", "screenshot", "screenshot"),
            bx("Adelante", "redo", "l"), bx("Atrás", "undo", "j"),
            bx("Siguiente", "redo", "shift+n"), bx("Subtítulos", "text", "c"), bx("Teatro", "fullscreen", "t"),
        ]),
        // --- Office ---
        profile("word", &["word"], vec![
            b("Guardar", "save", "ctrl+s"), b("Negrita", "bold", "ctrl+b"),
            b("Buscar", "find", "ctrl+f"), b("Deshacer", "undo", "ctrl+z"),
            b("Copiar", "copy", "ctrl+c"), b("Pegar", "paste", "ctrl+v"),
            bx("Cursiva", "italic", "ctrl+i"), bx("Subrayado", "underline", "ctrl+u"),
            bx("Enlace", "link", "ctrl+k"), bx("Rehacer", "redo", "ctrl+y"), bx("Imprimir", "print", "ctrl+p"),
        ]),
        profile("excel", &["excel"], vec![
            b("Guardar", "save", "ctrl+s"), b("Buscar", "find", "ctrl+f"),
            b("Deshacer", "undo", "ctrl+z"), b("Rehacer", "redo", "ctrl+y"),
            b("Copiar", "copy", "ctrl+c"), b("Pegar", "paste", "ctrl+v"),
            bx("Negrita", "bold", "ctrl+b"), bx("Cursiva", "italic", "ctrl+i"),
            bx("Autosuma", "sum", "alt+="), bx("Filtro", "filter", "ctrl+shift+l"), bx("Imprimir", "print", "ctrl+p"),
        ]),
        profile("powerpoint", &["powerpoint"], vec![
            // Pack presentador: el uso remoto #1 — pasar diapositivas desde el atril.
            b("Siguiente", "next", "right"), b("Anterior", "prev", "left"),
            b("Presentar", "play", "f5"), b("Negro", "dark", "b"),
            b("Guardar", "save", "ctrl+s"), b("Deshacer", "undo", "ctrl+z"),
            bx("Blanco", "light", "w"), bx("Desde actual", "play", "shift+f5"),
            bx("Nueva diap.", "new", "ctrl+m"), bx("Copiar", "copy", "ctrl+c"), bx("Pegar", "paste", "ctrl+v"),
            bx("Duplicar", "duplicate", "ctrl+d"), bx("Negrita", "bold", "ctrl+b"), bx("Imprimir", "print", "ctrl+p"),
        ]),
        profile("outlook", &["outlook"], vec![
            b("Nuevo correo", "new", "ctrl+n"), b("Responder", "reply", "ctrl+r"),
            b("Enviar", "send", "ctrl+enter"), b("Buscar", "find", "ctrl+e"),
            bx("Resp. todos", "replyall", "ctrl+shift+r"), bx("Reenviar", "forward", "ctrl+f"),
            bx("Eliminar", "delete", "ctrl+d"), bx("Calendario", "calendar", "ctrl+2"),
        ]),
        profile("acrobat", &["acrobat"], vec![
            b("Buscar", "find", "ctrl+f"), b("Imprimir", "print", "ctrl+p"),
            b("Guardar", "save", "ctrl+s"), b("Copiar", "copy", "ctrl+c"),
            bx("Zoom +", "zoomin", "ctrl+="), bx("Zoom -", "zoomout", "ctrl+-"),
            bx("Pant. completa", "fullscreen", "ctrl+l"),
        ]),
        // --- Creativas ---
        profile("photoshop", &["photoshop"], vec![
            b("Deshacer", "undo", "ctrl+z"), b("Pincel", "brush", "b"), b("Mover", "move", "v"),
            b("Guardar", "save", "ctrl+s"), b("Copiar", "copy", "ctrl+c"), b("Pegar", "paste", "ctrl+v"),
            bx("Texto", "text", "t"), bx("Borrador", "eraser", "e"), bx("Recortar", "crop", "c"),
            bx("Zoom", "zoomin", "z"), bx("Rehacer", "redo", "ctrl+shift+z"),
        ]),
        profile("illustrator", &["illustrator"], vec![
            b("Deshacer", "undo", "ctrl+z"), b("Selección", "cursor", "v"),
            b("Guardar", "save", "ctrl+s"), b("Copiar", "copy", "ctrl+c"), b("Pegar", "paste", "ctrl+v"),
            bx("Pluma", "pencil", "p"), bx("Texto", "text", "t"), bx("Rectángulo", "rect", "m"),
            bx("Zoom", "zoomin", "z"), bx("Rehacer", "redo", "ctrl+shift+z"),
        ]),
        profile("premiere", &["premiere"], vec![
            b("Play/Pausa", "play", "k"), b("Cortar", "cut", "c"), b("Selección", "cursor", "v"),
            b("Guardar", "save", "ctrl+s"), b("Deshacer", "undo", "ctrl+z"),
            bx("Entrada", "login", "i"), bx("Salida", "logout", "o"), bx("Marcador", "star", "m"),
            bx("Exportar", "upload", "ctrl+m"), bx("Rehacer", "redo", "ctrl+shift+z"),
        ]),
        profile("figma", &["figma"], vec![
            b("Mover", "move", "v"), b("Marco", "frame", "f"), b("Comentar", "comment", "c"),
            b("Copiar", "copy", "ctrl+c"), b("Pegar", "paste", "ctrl+v"), b("Deshacer", "undo", "ctrl+z"),
            bx("Texto", "text", "t"), bx("Rectángulo", "rect", "r"), bx("Lápiz", "pencil", "p"),
            bx("Duplicar", "duplicate", "ctrl+d"), bx("Rehacer", "redo", "ctrl+shift+z"),
        ]),
        // --- Comunicación / reuniones ---
        profile("slack", &["slack"], vec![
            b("Saltar a", "find", "ctrl+k"), b("Negrita", "bold", "ctrl+b"),
            b("Hilos", "comment", "ctrl+shift+t"), b("Copiar", "copy", "ctrl+c"),
            bx("Cursiva", "italic", "ctrl+i"), bx("Buscar", "find", "ctrl+f"),
            bx("Subir archivo", "upload", "ctrl+u"), bx("Editar último", "redo", "ctrl+up"),
        ]),
        profile("discord", &["discord"], vec![
            b("Silenciar", "mute", "ctrl+shift+m"), b("Audio", "video", "ctrl+shift+d"),
            b("Buscar", "find", "ctrl+f"),
            bx("Sgte canal", "next", "alt+down"), bx("Canal ant.", "prev", "alt+up"),
            bx("Marcar leído", "close", "escape"),
        ]),
        profile("teams", &["teams"], vec![
            b("Silenciar", "mic", "ctrl+shift+m"), b("Cámara", "video", "ctrl+shift+o"),
            b("Compartir", "share", "ctrl+shift+e"), b("Colgar", "close", "ctrl+shift+h"),
            bx("Levantar mano", "hand", "ctrl+shift+k"), bx("Chat", "comment", "ctrl+2"),
            bx("Aceptar", "play", "ctrl+shift+s"), bx("Rechazar", "close", "ctrl+shift+d"),
        ]),
        profile("zoom", &["zoom"], vec![
            b("Silenciar", "mic", "alt+a"), b("Vídeo", "video", "alt+v"),
            b("Compartir", "share", "alt+s"), b("Salir", "close", "alt+q"),
            bx("Levantar mano", "hand", "alt+y"), bx("Chat", "comment", "alt+h"),
            bx("Grabar", "record", "alt+r"), bx("Pant. completa", "fullscreen", "alt+f"),
            bx("Participantes", "people", "alt+u"),
        ]),
        profile("notion", &["notion"], vec![
            b("Buscar", "find", "ctrl+p"), b("Negrita", "bold", "ctrl+b"),
            b("Deshacer", "undo", "ctrl+z"), b("Copiar", "copy", "ctrl+c"), b("Pegar", "paste", "ctrl+v"),
            bx("Cursiva", "italic", "ctrl+i"), bx("Nueva página", "new", "ctrl+n"),
            bx("Enlace", "link", "ctrl+k"), bx("Rehacer", "redo", "ctrl+shift+z"),
        ]),
        // --- Multimedia ---
        profile("spotify", &["spotify"], vec![
            b("Play/Pausa", "play", "space"), b("Siguiente", "next", "ctrl+right"),
            b("Anterior", "prev", "ctrl+left"),
            bx("+ Volumen", "vol", "ctrl+up"), bx("- Volumen", "vol", "ctrl+down"),
            bx("Aleatorio", "shuffle", "ctrl+s"), bx("Repetir", "repeat", "ctrl+r"), bx("Buscar", "find", "ctrl+l"),
        ]),
        profile("vlc", &["vlc"], vec![
            b("Play/Pausa", "play", "space"), b("Pant. completa", "fullscreen", "f"),
            b("Silenciar", "mute", "m"), b("+ Volumen", "vol", "ctrl+up"), b("- Volumen", "vol", "ctrl+down"),
            bx("Siguiente", "next", "n"), bx("Anterior", "prev", "p"),
            bx("Subtítulos", "subtitles", "v"), bx("Captura", "screenshot", "shift+s"),
        ]),
        // --- Desarrollo / sistema ---
        profile("editor", &["code", "devenv", "visual studio", "cursor"], vec![
            b("Guardar", "save", "ctrl+s"), b("Buscar", "find", "ctrl+f"),
            b("Paleta", "new", "ctrl+shift+p"), b("Deshacer", "undo", "ctrl+z"),
            b("Copiar", "copy", "ctrl+c"), b("Pegar", "paste", "ctrl+v"),
            bx("Reemplazar", "replace", "ctrl+h"), bx("Comentar", "comment", "ctrl+/"),
            bx("Terminal", "terminal", "ctrl+`"), bx("Ir a línea", "find", "ctrl+g"),
            bx("Formato", "format", "shift+alt+f"),
        ]),
        profile("terminal", &["powershell", "windows terminal", "símbolo del sistema", "command prompt", "warp"], vec![
            // OJO: ctrl+c en consola es SIGINT (mata el proceso). Windows Terminal/PowerShell
            // aceptan ctrl+shift+c/v para el portapapeles.
            b("Copiar", "copy", "ctrl+shift+c"), b("Pegar", "paste", "ctrl+shift+v"),
            b("Nueva pestaña", "new", "ctrl+shift+t"), b("Buscar", "find", "ctrl+f"),
            bx("Cerrar pestaña", "close", "ctrl+shift+w"), bx("Dividir", "new", "alt+shift+d"),
            bx("Nueva ventana", "new", "ctrl+shift+n"), bx("Panel sgte", "redo", "ctrl+tab"),
        ]),
        profile("notepadpp", &["notepad++"], vec![
            b("Guardar", "save", "ctrl+s"), b("Buscar", "find", "ctrl+f"),
            b("Reemplazar", "replace", "ctrl+h"), b("Deshacer", "undo", "ctrl+z"),
            b("Copiar", "copy", "ctrl+c"), b("Pegar", "paste", "ctrl+v"),
            bx("Ir a línea", "find", "ctrl+g"), bx("Duplicar línea", "new", "ctrl+d"),
            bx("Comentar", "comment", "ctrl+q"), bx("Imprimir", "print", "ctrl+p"), bx("Guardar todo", "save", "ctrl+shift+s"),
        ]),
        profile("explorer", &["explorador", "file explorer", "explorer"], vec![
            b("Copiar", "copy", "ctrl+c"), b("Pegar", "paste", "ctrl+v"),
            b("Nueva carpeta", "newfolder", "ctrl+shift+n"), b("Renombrar", "rename", "f2"),
            bx("Cortar", "cut", "ctrl+x"), bx("Atrás", "undo", "alt+left"),
            bx("Subir nivel", "redo", "alt+up"), bx("Propiedades", "settings", "alt+enter"), bx("Buscar", "find", "ctrl+f"),
        ]),
        // --- Lote 1: apps/web añadidas hacia ~100 (van antes de "browser" para ganar por título) ---
        profile("chatgpt", &["chatgpt"], vec![
            b("Nuevo chat", "new", "ctrl+shift+o"), b("Barra lateral", "tab", "ctrl+shift+s"),
            b("Copiar", "copy", "ctrl+c"), b("Pegar", "paste", "ctrl+v"),
            bx("Borrar chat", "delete", "ctrl+shift+backspace"), bx("Enfocar entrada", "text", "shift+escape"),
        ]),
        profile("gcalendar", &["google calendar"], vec![
            b("Crear", "new", "c"), b("Hoy", "home", "t"), b("Buscar", "find", "/"), b("Semana", "tab", "w"),
            bx("Día", "tab", "d"), bx("Mes", "tab", "m"), bx("Agenda", "apps", "a"), bx("Año", "tab", "y"),
        ]),
        profile("onenote", &["onenote"], vec![
            b("Nueva página", "new", "ctrl+n"), b("Negrita", "bold", "ctrl+b"),
            b("Buscar", "find", "ctrl+e"), b("Deshacer", "undo", "ctrl+z"),
            b("Copiar", "copy", "ctrl+c"), b("Pegar", "paste", "ctrl+v"),
            bx("Cursiva", "italic", "ctrl+i"), bx("Subrayado", "underline", "ctrl+u"),
            bx("Resaltar", "highlight", "ctrl+shift+h"), bx("Imprimir", "print", "ctrl+p"),
        ]),
        profile("thunderbird", &["thunderbird"], vec![
            b("Nuevo", "new", "ctrl+n"), b("Responder", "reply", "ctrl+r"),
            b("Reenviar", "forward", "ctrl+l"), b("Buscar", "find", "ctrl+shift+k"),
            bx("Resp. todos", "replyall", "ctrl+shift+r"), bx("Enviar", "send", "ctrl+enter"),
            bx("Eliminar", "delete", "delete"), bx("Archivar", "archive", "a"),
        ]),
        profile("sublime", &["sublime"], vec![
            b("Guardar", "save", "ctrl+s"), b("Buscar", "find", "ctrl+f"),
            b("Paleta", "new", "ctrl+shift+p"), b("Ir a", "find", "ctrl+p"),
            b("Deshacer", "undo", "ctrl+z"), b("Copiar", "copy", "ctrl+c"), b("Pegar", "paste", "ctrl+v"),
            bx("Reemplazar", "replace", "ctrl+h"), bx("Comentar", "comment", "ctrl+/"),
            bx("Duplicar línea", "duplicate", "ctrl+shift+d"), bx("Ir a línea", "find", "ctrl+g"),
        ]),
        profile("obsidian", &["obsidian"], vec![
            b("Nueva nota", "new", "ctrl+n"), b("Cambiador", "find", "ctrl+o"),
            b("Editar/Ver", "redo", "ctrl+e"), b("Paleta", "new", "ctrl+p"),
            bx("Buscar", "find", "ctrl+shift+f"), bx("Negrita", "bold", "ctrl+b"),
            bx("Cursiva", "italic", "ctrl+i"), bx("Enlace", "link", "ctrl+k"),
        ]),
        profile("gimp", &["gimp"], vec![
            b("Deshacer", "undo", "ctrl+z"), b("Pincel", "brush", "p"), b("Borrador", "eraser", "shift+e"),
            b("Guardar", "save", "ctrl+s"), b("Copiar", "copy", "ctrl+c"), b("Pegar", "paste", "ctrl+v"),
            bx("Lápiz", "pencil", "n"), bx("Texto", "text", "t"), bx("Rellenar", "fill", "shift+b"),
            bx("Exportar", "upload", "ctrl+e"), bx("Rehacer", "redo", "ctrl+y"),
        ]),
        profile("canva", &["canva"], vec![
            b("Texto", "text", "t"), b("Deshacer", "undo", "ctrl+z"), b("Duplicar", "duplicate", "ctrl+d"),
            b("Copiar", "copy", "ctrl+c"), b("Pegar", "paste", "ctrl+v"),
            bx("Rehacer", "redo", "ctrl+y"), bx("Rectángulo", "rect", "r"),
            bx("Círculo", "ellipse", "c"), bx("Línea", "line", "l"), bx("Agrupar", "group", "ctrl+g"),
        ]),
        // Paint: la barra de herramientas no tiene atajos → se pulsan por UI Automation ("uia:<nombre>").
        // Nombres reales de la barra (Paint Win11 ES) verificados con UIAutomation.
        profile("paint", &["paint"], vec![
            b("Lápiz", "pencil", "uia:Lápiz"), b("Relleno", "fill", "uia:Relleno"),
            b("Texto", "text", "uia:Texto"), b("Borrador", "eraser", "uia:Borrador"),
            b("Selector color", "colorpick", "uia:Selector de colores"),
            b("Rectángulo", "rect", "uia:Rectángulo"), b("Elipse", "ellipse", "uia:Elipse"),
            b("Línea", "line", "uia:Línea"),
            bx("Lupa", "zoomin", "uia:Lupa"),
            bx("Recortar", "crop", "uia:Recortar"),
            bx("Girar dcha.", "rotate", "uia:Girar>>Girar 90º a la derecha"),
            bx("Girar izq.", "rotate", "uia:Girar>>Girar 90º a la izquierda"),
            bx("Deshacer", "undo", "ctrl+z"), bx("Rehacer", "redo", "ctrl+y"),
            bx("Guardar", "save", "ctrl+s"), bx("Copiar", "copy", "ctrl+c"), bx("Pegar", "paste", "ctrl+v"),
            // Selector de color: un solo botón abre una paleta local en el móvil ("colorpicker:...");
            // cada swatch envía "uia:<Nombre>". La paleta son ListItems UIA con SelectionItemPattern
            // (ya soportado). Nombres EXACTOS de Paint Win11 ES (verificados en vivo); el match exacto
            // evita chocar con "Color 1: Negro"/"Color 2: Blanco". El hex es solo para pintar el swatch.
            b("Colores", "palette", "colorpicker:Negro=000000;Blanco=FFFFFF;Gris=7F7F7F;Rojo=ED1C24;\
              Naranja=FF7F27;Amarillo=FFF200;Verde=22B14C;Turquesa=00A2E8;Añil=3F48CC;\
              Púrpura=A349A4;Marrón=B97A57;Rosa=FFAEC9"),
        ]),
        profile("davinci", &["davinci", "resolve"], vec![
            b("Play/Pausa", "play", "space"), b("Entrada", "login", "i"), b("Salida", "logout", "o"),
            b("Cortar", "cut", "ctrl+b"), b("Deshacer", "undo", "ctrl+z"),
            bx("Copiar", "copy", "ctrl+c"), bx("Pegar", "paste", "ctrl+v"), bx("Rehacer", "redo", "ctrl+shift+z"),
        ]),
        profile("audacity", &["audacity"], vec![
            b("Reproducir", "play", "space"), b("Grabar", "record", "r"),
            b("Deshacer", "undo", "ctrl+z"), b("Cortar", "cut", "ctrl+x"), b("Copiar", "copy", "ctrl+c"),
            bx("Pegar", "paste", "ctrl+v"), bx("Silencio", "mute", "ctrl+l"), bx("Rehacer", "redo", "ctrl+y"),
        ]),
        profile("jetbrains", &["intellij", "pycharm", "webstorm", "phpstorm", "rider", "goland", "clion", "datagrip", "android studio"], vec![
            b("Buscar", "find", "ctrl+f"), b("Comentar", "comment", "ctrl+/"),
            b("Reformatear", "format", "ctrl+alt+l"), b("Ejecutar", "play", "shift+f10"),
            b("Deshacer", "undo", "ctrl+z"),
            bx("Reemplazar", "replace", "ctrl+r"), bx("Ir a línea", "find", "ctrl+g"),
            bx("Renombrar", "rename", "shift+f6"), bx("Buscar acción", "find", "ctrl+shift+a"),
        ]),
        profile("lightroom", &["lightroom"], vec![
            b("Cuadrícula", "apps", "g"), b("Lupa", "zoomin", "e"), b("Revelar", "brush", "d"),
            b("Deshacer", "undo", "ctrl+z"),
            bx("Importar", "download", "ctrl+shift+i"), bx("Exportar", "upload", "ctrl+shift+e"),
            bx("Marcar", "star", "p"), bx("Rechazar", "delete", "x"),
        ]),
        profile("telegram", &["telegram"], vec![
            b("Buscar", "find", "ctrl+f"), b("Sgte chat", "redo", "alt+down"),
            b("Chat ant.", "undo", "alt+up"), b("Guardados", "star", "ctrl+0"),
        ]),
        // --- Lote 2: más apps/web hacia ~100 (también antes de "browser") ---
        profile("gmeet", &["google meet", "meet -"], vec![
            b("Silenciar", "mic", "ctrl+d"), b("Cámara", "video", "ctrl+e"),
            b("Levantar mano", "hand", "ctrl+alt+h"),
            bx("Pant. completa", "fullscreen", "f"), bx("Captura", "screenshot", "screenshot"),
        ]),
        profile("trello", &["trello"], vec![
            b("Buscar", "find", "/"), b("Filtrar", "filter", "f"),
            b("Tableros", "apps", "b"), b("Mis tarjetas", "star", "q"),
            bx("Archivar", "archive", "c"), bx("Etiquetas", "link", "l"),
            bx("Vencimiento", "calendar", "d"), bx("Miembros", "people", "m"),
        ]),
        profile("todoist", &["todoist"], vec![
            b("Añadir rápido", "new", "q"), b("Añadir tarea", "new", "a"),
            bx("Deshacer", "undo", "ctrl+z"), bx("Sincronizar", "refresh", "ctrl+r"),
        ]),
        profile("linear", &["linear"], vec![
            b("Crear", "new", "c"), b("Buscar", "find", "/"),
            b("Asignar", "assign", "a"), b("Estado", "redo", "s"),
            bx("Prioridad", "star", "p"), bx("Etiqueta", "link", "l"), bx("Vencimiento", "calendar", "d"),
        ]),
        profile("jira", &["jira"], vec![
            b("Crear", "new", "c"), b("Buscar", "find", "/"),
            b("Asignar", "assign", "a"), b("Editar", "redo", "e"),
            bx("Comentar", "comment", "m"), bx("Asignarme", "star", "i"),
        ]),
        profile("miro", &["miro"], vec![
            b("Texto", "text", "t"), b("Nota", "note", "s"),
            b("Lápiz", "pencil", "p"), b("Deshacer", "undo", "ctrl+z"),
            bx("Rectángulo", "rect", "r"), bx("Marco", "frame", "f"),
            bx("Copiar", "copy", "ctrl+c"), bx("Pegar", "paste", "ctrl+v"),
        ]),
        profile("postman", &["postman"], vec![
            b("Enviar", "send", "ctrl+enter"), b("Guardar", "save", "ctrl+s"),
            b("Nuevo", "new", "ctrl+n"), b("Buscar", "find", "ctrl+f"),
            bx("Nueva pestaña", "new", "ctrl+t"), bx("Cerrar pestaña", "close", "ctrl+w"),
        ]),
        profile("github", &["github"], vec![
            b("Buscar", "find", "/"), b("Archivos", "find", "t"),
            b("Ir a línea", "find", "l"), b("Cambiar rama", "tab", "w"),
            bx("Editor web", "text", "."), bx("Blame", "comment", "b"),
        ]),
        profile("overleaf", &["overleaf"], vec![
            b("Guardar/Compilar", "play", "ctrl+s"), b("Buscar", "find", "ctrl+f"),
            b("Deshacer", "undo", "ctrl+z"), b("Copiar", "copy", "ctrl+c"), b("Pegar", "paste", "ctrl+v"),
            bx("Rehacer", "redo", "ctrl+y"), bx("Comentar", "comment", "ctrl+/"),
        ]),
        profile("gkeep", &["google keep"], vec![
            b("Nueva nota", "new", "c"), b("Buscar", "find", "/"),
            b("Lista nueva", "new", "l"), b("Archivar", "archive", "e"),
            bx("Fijar", "pin", "f"),
        ]),
        profile("aftereffects", &["after effects"], vec![
            b("Vista previa", "play", "space"), b("Selección", "cursor", "v"),
            b("Deshacer", "undo", "ctrl+z"), b("Guardar", "save", "ctrl+s"),
            bx("Mano", "hand", "h"), bx("Zoom", "zoomin", "z"),
            bx("Rehacer", "redo", "ctrl+shift+z"), bx("Copiar", "copy", "ctrl+c"),
        ]),
        profile("krita", &["krita"], vec![
            b("Pincel", "brush", "b"), b("Borrador", "eraser", "e"),
            b("Deshacer", "undo", "ctrl+z"), b("Guardar", "save", "ctrl+s"),
            b("Copiar", "copy", "ctrl+c"), b("Pegar", "paste", "ctrl+v"),
            bx("Zoom +", "zoomin", "ctrl+="), bx("Rehacer", "redo", "ctrl+shift+z"),
        ]),
        profile("inkscape", &["inkscape"], vec![
            b("Seleccionar", "cursor", "s"), b("Lápiz", "pencil", "p"),
            b("Texto", "text", "t"), b("Deshacer", "undo", "ctrl+z"),
            bx("Rectángulo", "rect", "r"), bx("Elipse", "ellipse", "e"),
            bx("Guardar", "save", "ctrl+s"), bx("Rehacer", "redo", "ctrl+y"),
        ]),
        // --- Lote 3: más apps/web hacia ~100 (también antes de "browser") ---
        profile("whatsapp", &["whatsapp"], vec![
            b("Nuevo chat", "new", "ctrl+n"), b("Buscar", "find", "ctrl+f"),
            b("Sgte chat", "next", "ctrl+shift+]"), b("Chat ant.", "prev", "ctrl+shift+["),
            bx("Archivar", "archive", "ctrl+e"), bx("Silenciar", "mute", "ctrl+shift+m"),
        ]),
        profile("twitch", &["twitch"], vec![
            b("Play/Pausa", "play", "space"), b("Silenciar", "mute", "m"),
            b("Pant. completa", "fullscreen", "f"), b("Teatro", "video", "alt+t"),
        ]),
        profile("netflix", &["netflix"], vec![
            b("Play/Pausa", "play", "space"), b("Pant. completa", "fullscreen", "f"),
            b("Silenciar", "mute", "m"),
        ]),
        profile("xtwitter", &["twitter", "/ x"], vec![
            b("Nuevo post", "new", "n"), b("Buscar", "find", "/"),
            b("Me gusta", "star", "l"), b("Responder", "reply", "r"),
            bx("Repost", "redo", "t"),
        ]),
        profile("eclipse", &["eclipse"], vec![
            b("Guardar", "save", "ctrl+s"), b("Buscar", "find", "ctrl+f"),
            b("Comentar", "comment", "ctrl+/"), b("Ejecutar", "play", "ctrl+f11"),
            b("Deshacer", "undo", "ctrl+z"), b("Copiar", "copy", "ctrl+c"), b("Pegar", "paste", "ctrl+v"),
            bx("Formato", "format", "ctrl+shift+f"), bx("Organizar imports", "redo", "ctrl+shift+o"),
        ]),
        profile("dbeaver", &["dbeaver"], vec![
            b("Ejecutar", "play", "ctrl+enter"), b("Guardar", "save", "ctrl+s"),
            b("Buscar", "find", "ctrl+f"), b("Deshacer", "undo", "ctrl+z"),
            b("Copiar", "copy", "ctrl+c"), b("Pegar", "paste", "ctrl+v"),
            bx("Comentar", "comment", "ctrl+/"), bx("Formato", "format", "ctrl+shift+f"),
        ]),
        profile("unity", &["unity"], vec![
            b("Reproducir", "play", "ctrl+p"), b("Mano", "hand", "q"),
            b("Mover", "move", "w"), b("Rotar", "rotate", "e"),
            b("Guardar", "save", "ctrl+s"), b("Deshacer", "undo", "ctrl+z"),
            bx("Duplicar", "duplicate", "ctrl+d"), bx("Buscar", "find", "ctrl+f"),
        ]),
        profile("godot", &["godot"], vec![
            b("Ejecutar", "play", "f5"), b("Escena actual", "play", "f6"),
            b("Guardar", "save", "ctrl+s"), b("Buscar", "find", "ctrl+f"),
            b("Deshacer", "undo", "ctrl+z"),
            bx("Comentar", "comment", "ctrl+k"), bx("Copiar", "copy", "ctrl+c"), bx("Pegar", "paste", "ctrl+v"),
        ]),
        profile("capcut", &["capcut"], vec![
            b("Play/Pausa", "play", "space"), b("Dividir", "cut", "ctrl+b"),
            b("Deshacer", "undo", "ctrl+z"), b("Guardar", "save", "ctrl+s"),
            bx("Eliminar", "delete", "delete"), bx("Copiar", "copy", "ctrl+c"), bx("Pegar", "paste", "ctrl+v"),
        ]),
        profile("affinity", &["affinity"], vec![
            b("Mover", "move", "v"), b("Pincel", "brush", "b"), b("Borrador", "eraser", "e"),
            b("Texto", "text", "t"), b("Deshacer", "undo", "ctrl+z"), b("Guardar", "save", "ctrl+s"),
            bx("Recortar", "crop", "c"), bx("Copiar", "copy", "ctrl+c"), bx("Pegar", "paste", "ctrl+v"),
        ]),
        profile("ableton", &["ableton"], vec![
            b("Play/Pausa", "play", "space"), b("Grabar", "record", "f9"),
            b("Deshacer", "undo", "ctrl+z"), b("Guardar", "save", "ctrl+s"),
            bx("Copiar", "copy", "ctrl+c"), bx("Pegar", "paste", "ctrl+v"), bx("Bucle", "repeat", "ctrl+l"),
        ]),
        profile("reaper", &["reaper"], vec![
            b("Play/Pausa", "play", "space"), b("Grabar", "record", "ctrl+r"),
            b("Guardar", "save", "ctrl+s"), b("Deshacer", "undo", "ctrl+z"),
            bx("Marcador", "star", "m"), bx("Copiar", "copy", "ctrl+c"), bx("Pegar", "paste", "ctrl+v"),
        ]),
        // --- Lote 4: más apps/web hacia ~100 (también antes de "browser") ---
        profile("lowriter", &["libreoffice writer"], vec![
            b("Guardar", "save", "ctrl+s"), b("Negrita", "bold", "ctrl+b"),
            b("Buscar", "find", "ctrl+f"), b("Deshacer", "undo", "ctrl+z"),
            b("Copiar", "copy", "ctrl+c"), b("Pegar", "paste", "ctrl+v"),
            bx("Cursiva", "italic", "ctrl+i"), bx("Subrayado", "underline", "ctrl+u"),
            bx("Rehacer", "redo", "ctrl+y"), bx("Imprimir", "print", "ctrl+p"),
        ]),
        profile("localc", &["libreoffice calc"], vec![
            b("Guardar", "save", "ctrl+s"), b("Buscar", "find", "ctrl+f"),
            b("Deshacer", "undo", "ctrl+z"), b("Rehacer", "redo", "ctrl+y"),
            b("Copiar", "copy", "ctrl+c"), b("Pegar", "paste", "ctrl+v"),
            bx("Negrita", "bold", "ctrl+b"), bx("Cursiva", "italic", "ctrl+i"), bx("Imprimir", "print", "ctrl+p"),
        ]),
        profile("loimpress", &["libreoffice impress"], vec![
            // Pack presentador (en modo presentación: flechas pasan diapositiva, b = negro, w = blanco).
            b("Siguiente", "next", "right"), b("Anterior", "prev", "left"),
            b("Presentar", "play", "f5"), b("Negro", "dark", "b"),
            b("Guardar", "save", "ctrl+s"), b("Deshacer", "undo", "ctrl+z"),
            bx("Blanco", "light", "w"), bx("Copiar", "copy", "ctrl+c"), bx("Pegar", "paste", "ctrl+v"),
            bx("Negrita", "bold", "ctrl+b"), bx("Rehacer", "redo", "ctrl+y"), bx("Imprimir", "print", "ctrl+p"),
        ]),
        profile("notepad", &["notepad"], vec![
            b("Guardar", "save", "ctrl+s"), b("Buscar", "find", "ctrl+f"),
            b("Reemplazar", "replace", "ctrl+h"), b("Deshacer", "undo", "ctrl+z"),
            b("Copiar", "copy", "ctrl+c"), b("Pegar", "paste", "ctrl+v"),
            bx("Cortar", "cut", "ctrl+x"), bx("Ir a línea", "find", "ctrl+g"), bx("Imprimir", "print", "ctrl+p"),
        ]),
        profile("sumatra", &["sumatra"], vec![
            b("Buscar", "find", "ctrl+f"), b("Ir a página", "find", "ctrl+g"),
            b("Zoom +", "zoomin", "ctrl+="), b("Zoom -", "zoomout", "ctrl+-"),
            bx("Pant. completa", "fullscreen", "f11"), bx("Imprimir", "print", "ctrl+p"),
        ]),
        profile("foxit", &["foxit"], vec![
            b("Buscar", "find", "ctrl+f"), b("Guardar", "save", "ctrl+s"),
            b("Imprimir", "print", "ctrl+p"), b("Copiar", "copy", "ctrl+c"),
            bx("Zoom +", "zoomin", "ctrl+="), bx("Zoom -", "zoomout", "ctrl+-"),
        ]),
        profile("shotcut", &["shotcut"], vec![
            b("Play/Pausa", "play", "space"), b("Dividir", "cut", "s"),
            b("Deshacer", "undo", "ctrl+z"), b("Guardar", "save", "ctrl+s"),
            bx("Copiar", "copy", "ctrl+c"), bx("Pegar", "paste", "ctrl+v"), bx("Rehacer", "redo", "ctrl+shift+z"),
        ]),
        profile("musescore", &["musescore"], vec![
            b("Reproducir", "play", "space"), b("Guardar", "save", "ctrl+s"),
            b("Deshacer", "undo", "ctrl+z"), b("Copiar", "copy", "ctrl+c"), b("Pegar", "paste", "ctrl+v"),
            bx("Rehacer", "redo", "ctrl+shift+z"), bx("Imprimir", "print", "ctrl+p"),
        ]),
        profile("soundcloud", &["soundcloud"], vec![
            b("Play/Pausa", "play", "space"), b("Siguiente", "next", "shift+right"),
            b("Anterior", "prev", "shift+left"), b("Me gusta", "star", "l"),
        ]),
        profile("potplayer", &["potplayer"], vec![
            b("Play/Pausa", "play", "space"), b("Pant. completa", "fullscreen", "enter"),
            b("Silenciar", "mute", "m"), b("+ Volumen", "vol", "up"), b("- Volumen", "vol", "down"),
        ]),
        profile("primevideo", &["prime video"], vec![
            b("Play/Pausa", "play", "space"), b("Pant. completa", "fullscreen", "f"),
            b("Silenciar", "mute", "m"),
        ]),
        profile("disney", &["disney+"], vec![
            b("Play/Pausa", "play", "space"), b("Pant. completa", "fullscreen", "f"),
            b("Silenciar", "mute", "m"),
        ]),
        // --- Lote 5: más apps/web hacia ~100 (también antes de "browser") ---
        profile("gslides", &["google slides", "presentaciones de google"], vec![
            // Pack presentador (en modo presentación las flechas pasan diapositiva; b = negro, w = blanco).
            b("Siguiente", "next", "right"), b("Anterior", "prev", "left"),
            b("Presentar", "play", "ctrl+f5"), b("Negro", "dark", "b"),
            b("Deshacer", "undo", "ctrl+z"),
            bx("Blanco", "light", "w"), bx("Nueva diap.", "new", "ctrl+m"),
            bx("Copiar", "copy", "ctrl+c"), bx("Pegar", "paste", "ctrl+v"),
            bx("Rehacer", "redo", "ctrl+y"), bx("Duplicar", "duplicate", "ctrl+d"), bx("Imprimir", "print", "ctrl+p"),
        ]),
        profile("evernote", &["evernote"], vec![
            b("Nueva nota", "new", "ctrl+n"), b("Buscar", "find", "ctrl+shift+f"),
            b("Negrita", "bold", "ctrl+b"), b("Cursiva", "italic", "ctrl+i"),
            bx("Subrayado", "underline", "ctrl+u"), bx("Copiar", "copy", "ctrl+c"), bx("Pegar", "paste", "ctrl+v"),
        ]),
        profile("joplin", &["joplin"], vec![
            b("Nueva nota", "new", "ctrl+n"), b("Buscar", "find", "ctrl+f"),
            b("Negrita", "bold", "ctrl+b"), b("Cursiva", "italic", "ctrl+i"),
            bx("Enlace", "link", "ctrl+k"), bx("Copiar", "copy", "ctrl+c"), bx("Pegar", "paste", "ctrl+v"),
        ]),
        profile("rstudio", &["rstudio"], vec![
            b("Ejecutar", "play", "ctrl+enter"), b("Guardar", "save", "ctrl+s"),
            b("Buscar", "find", "ctrl+f"), b("Deshacer", "undo", "ctrl+z"),
            bx("Comentar", "comment", "ctrl+shift+c"), bx("Copiar", "copy", "ctrl+c"), bx("Pegar", "paste", "ctrl+v"),
        ]),
        profile("visio", &["visio"], vec![
            b("Guardar", "save", "ctrl+s"), b("Deshacer", "undo", "ctrl+z"),
            b("Copiar", "copy", "ctrl+c"), b("Pegar", "paste", "ctrl+v"), b("Buscar", "find", "ctrl+f"),
            bx("Rehacer", "redo", "ctrl+y"), bx("Duplicar", "duplicate", "ctrl+d"),
        ]),
        profile("coreldraw", &["coreldraw"], vec![
            b("Deshacer", "undo", "ctrl+z"), b("Guardar", "save", "ctrl+s"),
            b("Copiar", "copy", "ctrl+c"), b("Pegar", "paste", "ctrl+v"),
            bx("Rehacer", "redo", "ctrl+shift+z"), bx("Duplicar", "duplicate", "ctrl+d"),
        ]),
        profile("kdenlive", &["kdenlive"], vec![
            b("Play/Pausa", "play", "space"), b("Guardar", "save", "ctrl+s"),
            b("Deshacer", "undo", "ctrl+z"), b("Copiar", "copy", "ctrl+c"), b("Pegar", "paste", "ctrl+v"),
            bx("Rehacer", "redo", "ctrl+shift+z"),
        ]),
        profile("scribus", &["scribus"], vec![
            b("Guardar", "save", "ctrl+s"), b("Deshacer", "undo", "ctrl+z"),
            b("Copiar", "copy", "ctrl+c"), b("Pegar", "paste", "ctrl+v"),
            bx("Rehacer", "redo", "ctrl+shift+z"), bx("Buscar", "find", "ctrl+f"),
        ]),
        profile("mpchc", &["mpc-hc", "mpc-be", "media player classic"], vec![
            b("Play/Pausa", "play", "space"), b("Pant. completa", "fullscreen", "alt+enter"),
            b("+ Volumen", "vol", "up"), b("- Volumen", "vol", "down"),
        ]),
        profile("vimeo", &["vimeo"], vec![
            b("Play/Pausa", "play", "space"), b("Pant. completa", "fullscreen", "f"),
            b("Silenciar", "mute", "m"),
        ]),
        profile("crunchyroll", &["crunchyroll"], vec![
            b("Play/Pausa", "play", "space"), b("Pant. completa", "fullscreen", "f"),
            b("Silenciar", "mute", "m"),
        ]),
        profile("hbomax", &["hbo max", "hbomax", "max -"], vec![
            b("Play/Pausa", "play", "space"), b("Pant. completa", "fullscreen", "f"),
            b("Silenciar", "mute", "m"),
        ]),
        // --- Lote 6: cierre hacia ~100 (también antes de "browser") ---
        profile("insomnia", &["insomnia"], vec![
            b("Enviar", "send", "ctrl+enter"), b("Nuevo", "new", "ctrl+n"),
            b("Buscar", "find", "ctrl+f"),
            bx("Copiar", "copy", "ctrl+c"), bx("Pegar", "paste", "ctrl+v"),
        ]),
        profile("hulu", &["hulu"], vec![
            b("Play/Pausa", "play", "space"), b("Pant. completa", "fullscreen", "f"),
            b("Silenciar", "mute", "m"),
        ]),
        profile("plex", &["plex"], vec![
            b("Play/Pausa", "play", "space"), b("Pant. completa", "fullscreen", "f"),
            b("Silenciar", "mute", "m"),
        ]),
        profile("cubase", &["cubase"], vec![
            b("Play/Pausa", "play", "space"), b("Guardar", "save", "ctrl+s"),
            b("Deshacer", "undo", "ctrl+z"), b("Copiar", "copy", "ctrl+c"), b("Pegar", "paste", "ctrl+v"),
            bx("Rehacer", "redo", "ctrl+shift+z"),
        ]),
        profile("camtasia", &["camtasia"], vec![
            b("Play/Pausa", "play", "space"), b("Guardar", "save", "ctrl+s"),
            b("Deshacer", "undo", "ctrl+z"), b("Copiar", "copy", "ctrl+c"), b("Pegar", "paste", "ctrl+v"),
            bx("Rehacer", "redo", "ctrl+y"),
        ]),
        profile("filmora", &["filmora"], vec![
            b("Play/Pausa", "play", "space"), b("Guardar", "save", "ctrl+s"),
            b("Deshacer", "undo", "ctrl+z"), b("Eliminar", "delete", "delete"),
            bx("Copiar", "copy", "ctrl+c"), bx("Pegar", "paste", "ctrl+v"), bx("Rehacer", "redo", "ctrl+y"),
        ]),
        profile("vegas", &["vegas pro"], vec![
            b("Play/Pausa", "play", "space"), b("Dividir", "cut", "s"),
            b("Guardar", "save", "ctrl+s"), b("Deshacer", "undo", "ctrl+z"),
            bx("Copiar", "copy", "ctrl+c"), bx("Pegar", "paste", "ctrl+v"), bx("Rehacer", "redo", "ctrl+shift+z"),
        ]),
        profile("geany", &["geany"], vec![
            b("Guardar", "save", "ctrl+s"), b("Buscar", "find", "ctrl+f"),
            b("Reemplazar", "replace", "ctrl+h"), b("Ejecutar", "play", "f5"),
            b("Deshacer", "undo", "ctrl+z"),
            bx("Comentar", "comment", "ctrl+e"), bx("Ir a línea", "find", "ctrl+l"),
        ]),
        profile("spyder", &["spyder"], vec![
            b("Ejecutar", "play", "f5"), b("Guardar", "save", "ctrl+s"),
            b("Buscar", "find", "ctrl+f"), b("Deshacer", "undo", "ctrl+z"),
            bx("Comentar", "comment", "ctrl+1"), bx("Copiar", "copy", "ctrl+c"), bx("Pegar", "paste", "ctrl+v"),
        ]),
        profile("autocad", &["autocad"], vec![
            b("Guardar", "save", "ctrl+s"), b("Deshacer", "undo", "ctrl+z"),
            b("Copiar", "copy", "ctrl+c"), b("Pegar", "paste", "ctrl+v"),
            bx("Rehacer", "redo", "ctrl+y"), bx("Buscar", "find", "ctrl+f"),
        ]),
        // --- Gaming / streaming ---
        // OBS por websocket (obs:): funciona aunque el juego esté en primer plano, con estado en
        // vivo en el botón. Mientras OBS graba o transmite, este perfil se pinea (ver layout_for)
        // y se le añaden las escenas del usuario como botones.
        profile("obs", &["obs studio", "obs64"], vec![
            b("Grabar", "record", "obs:record"), bd("Directo", "stream", "obs:stream"),
            b("Mic", "mic", "obs:mic"), b("Clip", "clip", "obs:replay"),
            bx("Buffer clips", "clip", "obs:replaybuffer"),
        ]),
        profile("steam", &["steam"], vec![
            b("Overlay", "apps", "shift+tab"), b("Captura", "screenshot", "f12"),
        ]),
        // --- Navegador genérico (cualquier pestaña no específica) ---
        profile("browser", &["chrome", "edge", "firefox", "brave", "opera", "vivaldi"], vec![
            b("Nueva pestaña", "new", "ctrl+t"), b("Cerrar pestaña", "close", "ctrl+w"),
            b("Recargar", "refresh", "f5"), b("Buscar", "find", "ctrl+f"),
            b("Copiar", "copy", "ctrl+c"), b("Pegar", "paste", "ctrl+v"),
            bx("Reabrir pestaña", "redo", "ctrl+shift+t"), bx("Favorito", "star", "ctrl+d"),
            bx("Historial", "history", "ctrl+h"), bx("Descargas", "download", "ctrl+j"),
            bx("Incógnito", "new", "ctrl+shift+n"), bx("Zoom +", "zoomin", "ctrl+="), bx("Zoom -", "zoomout", "ctrl+-"),
        ]),
        // --- Fallback: control remoto de sofá (teclas multimedia del sistema, valen en cualquier app) ---
        profile("generic", &[], vec![
            b("Play/Pausa", "play", "playpause"), b("Vol +", "vol", "volup"),
            b("Vol -", "voldown", "voldown"), b("Silencio", "mute", "volmute"),
            b("Captura", "screenshot", "screenshot"),
            bx("Siguiente", "next", "nexttrack"), bx("Anterior", "prev", "prevtrack"),
            // Game Bar de Windows: atajos FIJOS del sistema, valen dentro de cualquier juego.
            bx("Clip 30s", "clip", "win+alt+g"), bx("Grabar juego", "record", "win+alt+r"),
            bx("Game Bar", "apps", "win+g"),
            bx("Copiar", "copy", "ctrl+c"), bx("Pegar", "paste", "ctrl+v"), bx("Cortar", "cut", "ctrl+x"),
            bx("Deshacer", "undo", "ctrl+z"), bx("Rehacer", "redo", "ctrl+y"),
            bx("Guardar", "save", "ctrl+s"), bx("Buscar", "find", "ctrl+f"), bx("Imprimir", "print", "ctrl+p"),
        ]),
    ];
    for p in &mut list {
        p.buttons.push(bd("Cerrar app", "close", "alt+F4"));
    }
    list
}

#[test]
fn tabla_sin_duplicados() {
    let table = entries();
    let mut keys: Vec<&str> = table.iter().map(|e| e.0).collect();
    keys.sort();
    let n = keys.len();
    keys.dedup();
    assert_eq!(n, keys.len(), "clave ES duplicada en TABLE");
}

#[test]
fn catalogo_completo() {
    let faltan: Vec<String> = default_profiles()
        .iter()
        .flat_map(|p| p.buttons.iter().map(|b| b.label.clone()))
        .filter(|l| !has_entry(l))
        .collect();
    assert!(faltan.is_empty(), "etiquetas sin traducción: {faltan:?}");
}

#[test]
fn tr_cambia_por_locale() {
    let mut locale = Lang::Es;
    set_locale(&mut locale, "en");
    assert_eq!(tr(locale, "Copiar"), "Copy");
    assert_eq!(tr(locale, "etiqueta custom del usuario"), "etiqueta custom del usuario");
    set_locale(&mut locale, "zh-Hans");
    assert_eq!(tr(locale, "Copiar"), "复制");
    set_locale(&mut locale, "es");
    assert_eq!(tr(locale, "Copiar"), "Copiar");
}
