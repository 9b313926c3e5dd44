//! Translations of the built-in labels. The Spanish label is the source of truth (profiles and
//! stored decks are written in it); a label is translated on the way out, into the language the
//! client declared. A label the catalogue does not know (one the user wrote) is shown as it is.
use vstd::prelude::*;

use crate::text::{is_prefix, same, starts_with_lit, chars_of};

verus! {

/// The languages a client can ask for.
#[derive(Clone, Copy, PartialEq, Eq, Debug, Structural)]
pub enum Lang {
    Es,
    En,
    Zh,
}

/// The language a locale tag selects: English for `en…`, Chinese for `zh…`, Spanish otherwise.
pub open spec fn lang_of(tag: Seq<char>) -> Lang {
    if is_prefix("en"@, tag) {
        Lang::En
    } else if is_prefix("zh"@, tag) {
        Lang::Zh
    } else {
        Lang::Es
    }
}

/// Switches to the language a client's locale tag selects.
pub fn set_locale(locale: &mut Lang, lang: &str)
    ensures
        *final(locale) == lang_of(lang@),
{
    let c = chars_of(lang);
    *locale = if starts_with_lit(c.as_slice(), "en") {
        Lang::En
    } else if starts_with_lit(c.as_slice(), "zh") {
        Lang::Zh
    } else {
        Lang::Es
    };
}

/// The catalogue: (Spanish, English, simplified Chinese) for every built-in label.
pub open spec fn translations() -> Seq<(&'static str, &'static str, &'static str)> {
    seq![
        ("+ Volumen", "Vol +", "音量+"),
        ("- Volumen", "Vol -", "音量-"),
        ("Aceptar", "Accept", "接受"),
        ("Adelante", "Forward", "前进"),
        ("Agenda", "Agenda", "日程"),
        ("Agrupar", "Group", "编组"),
        ("Aleatorio", "Shuffle", "随机播放"),
        ("Anterior", "Previous", "上一个"),
        ("Archivar", "Archive", "归档"),
        ("Archivos", "Files", "文件"),
        ("Asignar", "Assign", "分配"),
        ("Asignarme", "Assign me", "分给我"),
        ("Atrás", "Back", "后退"),
        ("Audio", "Audio", "音频"),
        ("Autosuma", "AutoSum", "自动求和"),
        ("Añadir rápido", "Quick add", "快速添加"),
        ("Añadir tarea", "Add task", "添加任务"),
        ("Año", "Year", "年"),
        ("Bajar", "Down", "向下"),
        ("Barra lateral", "Sidebar", "侧边栏"),
        ("Blame", "Blame", "Blame"),
        ("Blanco", "White", "白屏"),
        ("Borrador", "Eraser", "橡皮擦"),
        ("Borrar chat", "Clear chat", "清空聊天"),
        ("Bucle", "Loop", "循环"),
        ("Buffer clips", "Replay buf.", "回放缓存"),
        ("Buscar", "Find", "查找"),
        ("Buscar acción", "Find action", "查找操作"),
        ("Calendario", "Calendar", "日历"),
        ("Cambiador", "Switcher", "切换器"),
        ("Cambiar rama", "Switch branch", "切换分支"),
        ("Cancelar", "Cancel", "取消"),
        ("Canal ant.", "Prev channel", "上个频道"),
        ("Captura", "Screenshot", "截图"),
        ("Cerrar app", "Close app", "关闭应用"),
        ("Ciclar modo", "Cycle mode", "切换模式"),
        ("Cerrar pestaña", "Close tab", "关闭标签页"),
        ("Chat", "Chat", "聊天"),
        ("Chat ant.", "Prev chat", "上个聊天"),
        ("Clip", "Clip", "剪辑"),
        ("Clip 30s", "30s clip", "剪辑30秒"),
        ("Colgar", "Hang up", "挂断"),
        ("Colores", "Colors", "颜色"),
        ("Comentar", "Comment", "注释"),
        ("Compartir", "Share", "分享"),
        ("Copiar", "Copy", "复制"),
        ("Cortar", "Cut", "剪切"),
        ("Cortar directo", "End stream", "结束直播"),
        ("Crear", "Create", "创建"),
        ("Cuadrícula", "Grid", "网格"),
        ("Cursiva", "Italic", "斜体"),
        ("Cámara", "Camera", "摄像头"),
        ("Círculo", "Circle", "圆形"),
        ("Descargas", "Downloads", "下载"),
        ("Desde actual", "From current", "从当前"),
        ("Deshacer", "Undo", "撤销"),
        ("Destacar", "Star", "加星"),
        ("Detener grab.", "Stop rec.", "停止录制"),
        ("Directo", "Stream", "直播"),
        ("Dónde estoy", "Where am I", "当前路径"),
        ("Dividir", "Split", "分割"),
        ("Duplicar", "Duplicate", "创建副本"),
        ("Duplicar línea", "Dup. line", "复制行"),
        ("Día", "Day", "日"),
        ("Editar", "Edit", "编辑"),
        ("Editar último", "Edit last", "编辑上条"),
        ("Editar/Ver", "Edit/View", "编辑/查看"),
        ("Editor web", "Web editor", "网页编辑器"),
        ("Ejecutar", "Run", "运行"),
        ("Eliminar", "Delete", "删除"),
        ("Elipse", "Ellipse", "椭圆"),
        ("Enfocar entrada", "Focus input", "聚焦输入"),
        ("Enlace", "Link", "链接"),
        ("Entrada", "In", "入点"),
        ("Enviar", "Send", "发送"),
        ("Escena actual", "Current scene", "当前场景"),
        ("Esfuerzo", "Effort", "推理强度"),
        ("Estado", "Status", "状态"),
        ("Etiqueta", "Label", "标签"),
        ("Etiquetas", "Labels", "标签"),
        ("Exportar", "Export", "导出"),
        ("Favorito", "Favorite", "收藏"),
        ("Fijar", "Pin", "置顶"),
        ("Filtrar", "Filter", "筛选"),
        ("Filtro", "Filter", "筛选"),
        ("Formato", "Format", "格式化"),
        ("Game Bar", "Game Bar", "Game Bar"),
        ("Girar dcha.", "Rotate right", "向右旋转"),
        ("Girar izq.", "Rotate left", "向左旋转"),
        ("Git estado", "Git status", "Git 状态"),
        ("Grabar", "Record", "录制"),
        ("Grabar juego", "Record game", "录制游戏"),
        ("Guardados", "Saved", "收藏夹"),
        ("Guardar", "Save", "保存"),
        ("Guardar todo", "Save all", "全部保存"),
        ("Guardar/Compilar", "Save/Build", "保存/编译"),
        ("Hilos", "Threads", "消息串"),
        ("Historial", "History", "历史记录"),
        ("Hoy", "Today", "今天"),
        ("Importar", "Import", "导入"),
        ("Imprimir", "Print", "打印"),
        ("Incógnito", "Incognito", "无痕窗口"),
        ("Ir a", "Go to", "转到"),
        ("Ir a línea", "Go to line", "转到行"),
        ("Ir a página", "Go to page", "转到页"),
        ("Levantar mano", "Raise hand", "举手"),
        ("Limpiar", "Clear", "清屏"),
        ("Listar", "List", "列出文件"),
        ("Lista nueva", "New list", "新建列表"),
        ("Lupa", "Loupe", "放大视图"),
        ("Lápiz", "Pencil", "铅笔"),
        ("Línea", "Line", "直线"),
        ("Mano", "Hand", "抓手"),
        ("Marcador", "Marker", "标记"),
        ("Marcar", "Pick", "留用"),
        ("Marcar leído", "Mark read", "标为已读"),
        ("Marco", "Frame", "框架"),
        ("Me gusta", "Like", "点赞"),
        ("Mes", "Month", "月"),
        ("Mic", "Mic", "麦克风"),
        ("Miembros", "Members", "成员"),
        ("Mis tarjetas", "My cards", "我的卡片"),
        ("Modelo", "Model", "模型"),
        ("Modo", "Mode", "模式"),
        ("Mover", "Move", "移动"),
        ("Negrita", "Bold", "粗体"),
        ("Negro", "Black", "黑屏"),
        ("Nota", "Note", "便签"),
        ("Nueva carpeta", "New folder", "新建文件夹"),
        ("Nueva diap.", "New slide", "新幻灯片"),
        ("Nueva línea", "New line", "换行"),
        ("Nueva nota", "New note", "新建笔记"),
        ("Nueva pestaña", "New tab", "新标签页"),
        ("Nueva página", "New page", "新建页面"),
        ("Nueva ventana", "New window", "新窗口"),
        ("Nuevo", "New", "新建"),
        ("Nuevo chat", "New chat", "新聊天"),
        ("Nuevo correo", "New email", "新邮件"),
        ("Nuevo post", "New post", "发帖"),
        ("Organizar imports", "Fix imports", "整理导入"),
        ("Overlay", "Overlay", "悬浮界面"),
        ("Paleta", "Palette", "命令面板"),
        ("Panel sgte", "Next pane", "下个面板"),
        ("Pant. completa", "Full screen", "全屏"),
        ("Pantalla completa", "Full screen", "全屏"),
        ("Participantes", "Participants", "参会者"),
        ("Pegar", "Paste", "粘贴"),
        ("Pincel", "Brush", "画笔"),
        ("Planificar respuesta", "Plan response", "规划回复"),
        ("Play/Pausa", "Play/Pause", "播放/暂停"),
        ("Pluma", "Pen", "钢笔"),
        ("Presentar", "Present", "放映"),
        ("Prioridad", "Priority", "优先级"),
        ("Propiedades", "Properties", "属性"),
        ("Reabrir pestaña", "Reopen tab", "恢复标签页"),
        ("Recargar", "Reload", "重新加载"),
        ("Rechazar", "Reject", "排除"),
        ("Recortar", "Crop", "裁剪"),
        ("Rectángulo", "Rectangle", "矩形"),
        ("Redactar", "Compose", "写邮件"),
        ("Reemplazar", "Replace", "替换"),
        ("Reenviar", "Forward", "转发"),
        ("Reformatear", "Reformat", "重新格式化"),
        ("Rehacer", "Redo", "重做"),
        ("Rellenar", "Fill", "填充"),
        ("Relleno", "Fill", "填充"),
        ("Renombrar", "Rename", "重命名"),
        ("Repetir", "Repeat", "重复"),
        ("Repost", "Repost", "转发"),
        ("Reproducir", "Play", "播放"),
        ("Resaltar", "Highlight", "高亮"),
        ("Resp. todos", "Reply all", "回复全部"),
        ("Responder", "Reply", "回复"),
        ("Revelar", "Develop", "修改照片"),
        ("Rotar", "Rotate", "旋转"),
        ("Salida", "Out", "出点"),
        ("Salir", "Exit", "退出"),
        ("Saltar a", "Jump to", "跳转"),
        ("Sel. todo", "Select all", "全选"),
        ("Seleccionar", "Select", "选择"),
        ("Selección", "Select", "选择"),
        ("Selector color", "Color picker", "取色器"),
        ("Semana", "Week", "周"),
        ("Sgte canal", "Next channel", "下个频道"),
        ("Sgte chat", "Next chat", "下个聊天"),
        ("Siguiente", "Next", "下一个"),
        ("Silenciar", "Mute", "静音"),
        ("Silencio", "Mute", "静音"),
        ("Sincronizar", "Sync", "同步"),
        ("Subir", "Up", "向上"),
        ("Subir archivo", "Upload", "上传"),
        ("Subir nivel", "Up level", "上级目录"),
        ("Subrayado", "Underline", "下划线"),
        ("Subtítulos", "Subtitles", "字幕"),
        ("Tableros", "Boards", "看板"),
        ("Teatro", "Theater", "剧场模式"),
        ("Terminal", "Terminal", "终端"),
        ("Texto", "Text", "文本"),
        ("Vencimiento", "Due date", "截止日期"),
        ("Vista previa", "Preview", "预览"),
        ("Vídeo", "Video", "视频"),
        ("Zoom", "Zoom", "缩放"),
        ("Zoom +", "Zoom in", "放大"),
        ("Zoom -", "Zoom out", "缩小"),
        ("Vol +", "Vol +", "音量+"),
        ("Vol -", "Vol -", "音量-"),
    ]
}

/// The catalogue, to look labels up in.
pub fn entries() -> (r: Vec<(&'static str, &'static str, &'static str)>)
    ensures
        r@ == translations(),
{
    vec![
        ("+ Volumen", "Vol +", "音量+"),
        ("- Volumen", "Vol -", "音量-"),
        ("Aceptar", "Accept", "接受"),
        ("Adelante", "Forward", "前进"),
        ("Agenda", "Agenda", "日程"),
        ("Agrupar", "Group", "编组"),
        ("Aleatorio", "Shuffle", "随机播放"),
        ("Anterior", "Previous", "上一个"),
        ("Archivar", "Archive", "归档"),
        ("Archivos", "Files", "文件"),
        ("Asignar", "Assign", "分配"),
        ("Asignarme", "Assign me", "分给我"),
        ("Atrás", "Back", "后退"),
        ("Audio", "Audio", "音频"),
        ("Autosuma", "AutoSum", "自动求和"),
        ("Añadir rápido", "Quick add", "快速添加"),
        ("Añadir tarea", "Add task", "添加任务"),
        ("Año", "Year", "年"),
        ("Bajar", "Down", "向下"),
        ("Barra lateral", "Sidebar", "侧边栏"),
        ("Blame", "Blame", "Blame"),
        ("Blanco", "White", "白屏"),
        ("Borrador", "Eraser", "橡皮擦"),
        ("Borrar chat", "Clear chat", "清空聊天"),
        ("Bucle", "Loop", "循环"),
        ("Buffer clips", "Replay buf.", "回放缓存"),
        ("Buscar", "Find", "查找"),
        ("Buscar acción", "Find action", "查找操作"),
        ("Calendario", "Calendar", "日历"),
        ("Cambiador", "Switcher", "切换器"),
        ("Cambiar rama", "Switch branch", "切换分支"),
        ("Cancelar", "Cancel", "取消"),
        ("Canal ant.", "Prev channel", "上个频道"),
        ("Captura", "Screenshot", "截图"),
        ("Cerrar app", "Close app", "关闭应用"),
        ("Ciclar modo", "Cycle mode", "切换模式"),
        ("Cerrar pestaña", "Close tab", "关闭标签页"),
        ("Chat", "Chat", "聊天"),
        ("Chat ant.", "Prev chat", "上个聊天"),
        ("Clip", "Clip", "剪辑"),
        ("Clip 30s", "30s clip", "剪辑30秒"),
        ("Colgar", "Hang up", "挂断"),
        ("Colores", "Colors", "颜色"),
        ("Comentar", "Comment", "注释"),
        ("Compartir", "Share", "分享"),
        ("Copiar", "Copy", "复制"),
        ("Cortar", "Cut", "剪切"),
        ("Cortar directo", "End stream", "结束直播"),
        ("Crear", "Create", "创建"),
        ("Cuadrícula", "Grid", "网格"),
        ("Cursiva", "Italic", "斜体"),
        ("Cámara", "Camera", "摄像头"),
        ("Círculo", "Circle", "圆形"),
        ("Descargas", "Downloads", "下载"),
        ("Desde actual", "From current", "从当前"),
        ("Deshacer", "Undo", "撤销"),
        ("Destacar", "Star", "加星"),
        ("Detener grab.", "Stop rec.", "停止录制"),
        ("Directo", "Stream", "直播"),
        ("Dónde estoy", "Where am I", "当前路径"),
        ("Dividir", "Split", "分割"),
        ("Duplicar", "Duplicate", "创建副本"),
        ("Duplicar línea", "Dup. line", "复制行"),
        ("Día", "Day", "日"),
        ("Editar", "Edit", "编辑"),
        ("Editar último", "Edit last", "编辑上条"),
        ("Editar/Ver", "Edit/View", "编辑/查看"),
        ("Editor web", "Web editor", "网页编辑器"),
        ("Ejecutar", "Run", "运行"),
        ("Eliminar", "Delete", "删除"),
        ("Elipse", "Ellipse", "椭圆"),
        ("Enfocar entrada", "Focus input", "聚焦输入"),
        ("Enlace", "Link", "链接"),
        ("Entrada", "In", "入点"),
        ("Enviar", "Send", "发送"),
        ("Escena actual", "Current scene", "当前场景"),
        ("Esfuerzo", "Effort", "推理强度"),
        ("Estado", "Status", "状态"),
        ("Etiqueta", "Label", "标签"),
        ("Etiquetas", "Labels", "标签"),
        ("Exportar", "Export", "导出"),
        ("Favorito", "Favorite", "收藏"),
        ("Fijar", "Pin", "置顶"),
        ("Filtrar", "Filter", "筛选"),
        ("Filtro", "Filter", "筛选"),
        ("Formato", "Format", "格式化"),
        ("Game Bar", "Game Bar", "Game Bar"),
        ("Girar dcha.", "Rotate right", "向右旋转"),
        ("Girar izq.", "Rotate left", "向左旋转"),
        ("Git estado", "Git status", "Git 状态"),
        ("Grabar", "Record", "录制"),
        ("Grabar juego", "Record game", "录制游戏"),
        ("Guardados", "Saved", "收藏夹"),
        ("Guardar", "Save", "保存"),
        ("Guardar todo", "Save all", "全部保存"),
        ("Guardar/Compilar", "Save/Build", "保存/编译"),
        ("Hilos", "Threads", "消息串"),
        ("Historial", "History", "历史记录"),
        ("Hoy", "Today", "今天"),
        ("Importar", "Import", "导入"),
        ("Imprimir", "Print", "打印"),
        ("Incógnito", "Incognito", "无痕窗口"),
        ("Ir a", "Go to", "转到"),
        ("Ir a línea", "Go to line", "转到行"),
        ("Ir a página", "Go to page", "转到页"),
        ("Levantar mano", "Raise hand", "举手"),
        ("Limpiar", "Clear", "清屏"),
        ("Listar", "List", "列出文件"),
        ("Lista nueva", "New list", "新建列表"),
        ("Lupa", "Loupe", "放大视图"),
        ("Lápiz", "Pencil", "铅笔"),
        ("Línea", "Line", "直线"),
        ("Mano", "Hand", "抓手"),
        ("Marcador", "Marker", "标记"),
        ("Marcar", "Pick", "留用"),
        ("Marcar leído", "Mark read", "标为已读"),
        ("Marco", "Frame", "框架"),
        ("Me gusta", "Like", "点赞"),
        ("Mes", "Month", "月"),
        ("Mic", "Mic", "麦克风"),
        ("Miembros", "Members", "成员"),
        ("Mis tarjetas", "My cards", "我的卡片"),
        ("Modelo", "Model", "模型"),
        ("Modo", "Mode", "模式"),
        ("Mover", "Move", "移动"),
        ("Negrita", "Bold", "粗体"),
        ("Negro", "Black", "黑屏"),
        ("Nota", "Note", "便签"),
        ("Nueva carpeta", "New folder", "新建文件夹"),
        ("Nueva diap.", "New slide", "新幻灯片"),
        ("Nueva línea", "New line", "换行"),
        ("Nueva nota", "New note", "新建笔记"),
        ("Nueva pestaña", "New tab", "新标签页"),
        ("Nueva página", "New page", "新建页面"),
        ("Nueva ventana", "New window", "新窗口"),
        ("Nuevo", "New", "新建"),
        ("Nuevo chat", "New chat", "新聊天"),
        ("Nuevo correo", "New email", "新邮件"),
        ("Nuevo post", "New post", "发帖"),
        ("Organizar imports", "Fix imports", "整理导入"),
        ("Overlay", "Overlay", "悬浮界面"),
        ("Paleta", "Palette", "命令面板"),
        ("Panel sgte", "Next pane", "下个面板"),
        ("Pant. completa", "Full screen", "全屏"),
        ("Pantalla completa", "Full screen", "全屏"),
        ("Participantes", "Participants", "参会者"),
        ("Pegar", "Paste", "粘贴"),
        ("Pincel", "Brush", "画笔"),
        ("Planificar respuesta", "Plan response", "规划回复"),
        ("Play/Pausa", "Play/Pause", "播放/暂停"),
        ("Pluma", "Pen", "钢笔"),
        ("Presentar", "Present", "放映"),
        ("Prioridad", "Priority", "优先级"),
        ("Propiedades", "Properties", "属性"),
        ("Reabrir pestaña", "Reopen tab", "恢复标签页"),
        ("Recargar", "Reload", "重新加载"),
        ("Rechazar", "Reject", "排除"),
        ("Recortar", "Crop", "裁剪"),
        ("Rectángulo", "Rectangle", "矩形"),
        ("Redactar", "Compose", "写邮件"),
        ("Reemplazar", "Replace", "替换"),
        ("Reenviar", "Forward", "转发"),
        ("Reformatear", "Reformat", "重新格式化"),
        ("Rehacer", "Redo", "重做"),
        ("Rellenar", "Fill", "填充"),
        ("Relleno", "Fill", "填充"),
        ("Renombrar", "Rename", "重命名"),
        ("Repetir", "Repeat", "重复"),
        ("Repost", "Repost", "转发"),
        ("Reproducir", "Play", "播放"),
        ("Resaltar", "Highlight", "高亮"),
        ("Resp. todos", "Reply all", "回复全部"),
        ("Responder", "Reply", "回复"),
        ("Revelar", "Develop", "修改照片"),
        ("Rotar", "Rotate", "旋转"),
        ("Salida", "Out", "出点"),
        ("Salir", "Exit", "退出"),
        ("Saltar a", "Jump to", "跳转"),
        ("Sel. todo", "Select all", "全选"),
        ("Seleccionar", "Select", "选择"),
        ("Selección", "Select", "选择"),
        ("Selector color", "Color picker", "取色器"),
        ("Semana", "Week", "周"),
        ("Sgte canal", "Next channel", "下个频道"),
        ("Sgte chat", "Next chat", "下个聊天"),
        ("Siguiente", "Next", "下一个"),
        ("Silenciar", "Mute", "静音"),
        ("Silencio", "Mute", "静音"),
        ("Sincronizar", "Sync", "同步"),
        ("Subir", "Up", "向上"),
        ("Subir archivo", "Upload", "上传"),
        ("Subir nivel", "Up level", "上级目录"),
        ("Subrayado", "Underline", "下划线"),
        ("Subtítulos", "Subtitles", "字幕"),
        ("Tableros", "Boards", "看板"),
        ("Teatro", "Theater", "剧场模式"),
        ("Terminal", "Terminal", "终端"),
        ("Texto", "Text", "文本"),
        ("Vencimiento", "Due date", "截止日期"),
        ("Vista previa", "Preview", "预览"),
        ("Vídeo", "Video", "视频"),
        ("Zoom", "Zoom", "缩放"),
        ("Zoom +", "Zoom in", "放大"),
        ("Zoom -", "Zoom out", "缩小"),
        ("Vol +", "Vol +", "音量+"),
        ("Vol -", "Vol -", "音量-"),
    ]
}

/// The first catalogue entry from `i` on whose Spanish label is `label`.
pub open spec fn entry_from(label: Seq<char>, i: int) -> Option<int>
    decreases translations().len() - i,
{
    if i < 0 || i >= translations().len() {
        None
    } else if translations()[i].0@ == label {
        Some(i)
    } else {
        entry_from(label, i + 1)
    }
}

/// A label in a language: its catalogue translation, or the label itself when it is Spanish
/// already or the catalogue does not know it.
pub open spec fn translated(lang: Lang, label: Seq<char>) -> Seq<char> {
    match entry_from(label, 0) {
        Some(i) => match lang {
            Lang::Es => label,
            Lang::En => translations()[i].1@,
            Lang::Zh => translations()[i].2@,
        },
        None => label,
    }
}

/// Whether the catalogue has an entry for a Spanish label.
pub fn has_entry(label: &str) -> (r: bool)
    ensures
        r == entry_from(label@, 0) is Some,
{
    let table = entries();
    let mut i: usize = 0;
    while i < table.len()
        invariant
            i <= table@.len(),
            table@ == translations(),
            entry_from(label@, 0) == entry_from(label@, i as int),
        decreases table@.len() - i,
    {
        if same(table[i].0, label) {
            return true;
        }
        i = i + 1;
    }
    false
}

/// A label in a language.
pub fn tr<'a>(lang: Lang, label: &'a str) -> (r: &'a str)
    ensures
        r@ == translated(lang, label@),
{
    if lang == Lang::Es {
        return label;
    }
    let table = entries();
    let mut i: usize = 0;
    while i < table.len()
        invariant
            i <= table@.len(),
            table@ == translations(),
            lang != Lang::Es,
            entry_from(label@, 0) == entry_from(label@, i as int),
        decreases table@.len() - i,
    {
        if same(table[i].0, label) {
            return if lang == Lang::En {
                table[i].1
            } else {
                table[i].2
            };
        }
        i = i + 1;
    }
    label
}

/// Translating never invents a label: Spanish, the language the catalogue is written in, is
/// returned as it is, and so is any label the table does not know (a user's own, an app's name).
pub proof fn law_unknown_labels_pass_through(lang: Lang, label: Seq<char>)
    ensures
        translated(Lang::Es, label) == label,
        entry_from(label, 0) is None ==> translated(lang, label) == label,
{
}

} // verus!
