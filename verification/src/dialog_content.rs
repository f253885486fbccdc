use vstd::prelude::*;
use vstd::string::*;

use crate::dialog::{DialogButtonSpec, DialogOptions, DialogResult};
use crate::version::{compare_versions, semver_order, VersionOrder};

verus! {

/// What to do for a dialog: answer at once (when the installer runs silently) or ask the user.
pub enum DialogRequest<T> {
    Answer(T),
    Ask(DialogOptions),
}

/// The text an optional string holds.
pub open spec fn text_of(s: Option<String>) -> Option<Seq<char>> {
    match s {
        Some(t) => Some(t@),
        None => None,
    }
}

/// A button as the contracts see it: result, label, whether it is the primary one.
pub open spec fn button_view(b: DialogButtonSpec) -> (DialogResult, Seq<char>, bool) {
    (b.result, b.label@, b.is_primary)
}

/// `opts` shows exactly the given texts and buttons.
pub open spec fn shows(
    opts: DialogOptions,
    title: Seq<char>,
    header: Option<Seq<char>>,
    body: Seq<char>,
    buttons: Seq<(DialogResult, Seq<char>, bool)>,
    footer_text: Option<Seq<char>>,
    footer_link: Option<Seq<char>>,
) -> bool {
    &&& opts.title@ == title
    &&& text_of(opts.header) == header
    &&& opts.body@ == body
    &&& opts.buttons@.len() == buttons.len()
    &&& forall|i: int| 0 <= i < buttons.len() ==> button_view(#[trigger] opts.buttons@[i]) == buttons[i]
    &&& text_of(opts.footer_text) == footer_text
    &&& text_of(opts.footer_link) == footer_link
}

/// The request asks the user with exactly the given texts and buttons.
pub open spec fn asks<T>(
    req: DialogRequest<T>,
    title: Seq<char>,
    header: Option<Seq<char>>,
    body: Seq<char>,
    buttons: Seq<(DialogResult, Seq<char>, bool)>,
    footer_text: Option<Seq<char>>,
    footer_link: Option<Seq<char>>,
) -> bool {
    req matches DialogRequest::Ask(o) && shows(o, title, header, body, buttons, footer_text, footer_link)
}

/// The title of the installer window: `<title> 安装程序 <version>`.
pub open spec fn setup_title(app_title: Seq<char>, app_version: Seq<char>) -> Seq<char> {
    app_title + " 安装程序 "@ + app_version
}

fn concat(a: &str, b: &str) -> (res: String)
    ensures
        res@ == a@ + b@,
{
    let mut s = String::from_str(a);
    s.append(b);
    s
}

fn concat3(a: &str, b: &str, c: &str) -> (res: String)
    ensures
        res@ == a@ + b@ + c@,
{
    let mut s = String::from_str(a);
    s.append(b);
    s.append(c);
    s
}

fn dialog_options(
    title: String,
    header: Option<String>,
    body: String,
    buttons: Vec<DialogButtonSpec>,
    footer_text: Option<String>,
    footer_link: Option<String>,
) -> (res: DialogOptions)
    ensures
        shows(
            res,
            title@,
            text_of(header),
            body@,
            buttons@.map_values(|b: DialogButtonSpec| button_view(b)),
            text_of(footer_text),
            text_of(footer_link),
        ),
{
    DialogOptions { title, header, body, buttons, footer_text, footer_link }
}

/// The dialog telling the user to restart the computer before setup can go on.
pub fn restart_required_options(app_title: &str, app_version: &str) -> (res: DialogOptions)
    ensures
        shows(
            res,
            setup_title(app_title@, app_version@),
            Some("需要重启"@),
            "安装继续之前需要重启计算机。请重启后再试。"@,
            seq![(DialogResult::OK, "确定"@, true)],
            None,
            None,
        ),
{
    let mut buttons = Vec::new();
    buttons.push(DialogButtonSpec::primary(DialogResult::OK, "确定"));
    dialog_options(
        concat3(app_title, " 安装程序 ", app_version),
        Some(String::from_str("需要重启")),
        String::from_str("安装继续之前需要重启计算机。请重启后再试。"),
        buttons,
        None,
        None,
    )
}

/// The update asks to install missing dependencies; silently it does not (the app is probably
/// exiting, and installing them may raise a UAC prompt), and the update goes on only when the
/// user answers `OK`.
pub fn update_missing_dependencies_request(
    silent: bool,
    app_title: &str,
    dependencies: &str,
    from: &str,
    to: &str,
) -> (res: DialogRequest<bool>)
    ensures
        silent ==> (res matches DialogRequest::Answer(a) && a == false),
        !silent ==> asks(
            res,
            app_title@ + " 更新"@,
            Some(app_title@ + " 想从 "@ + from@ + " 更新到 "@ + to@),
            app_title@ + " "@ + to@ + " 缺少依赖组件，需要安装："@ + dependencies@ + "。是否继续？"@,
            seq![(DialogResult::OK, "安装并更新"@, true), (DialogResult::Cancel, "取消"@, false)],
            None,
            None,
        ),
{
    if silent {
        return DialogRequest::Answer(false);
    }
    let mut header = concat3(app_title, " 想从 ", from);
    header.append(" 更新到 ");
    header.append(to);
    let mut body = concat3(app_title, " ", to);
    body.append(" 缺少依赖组件，需要安装：");
    body.append(dependencies);
    body.append("。是否继续？");
    let mut buttons = Vec::new();
    buttons.push(DialogButtonSpec::primary(DialogResult::OK, "安装并更新"));
    buttons.push(DialogButtonSpec::secondary(DialogResult::Cancel, "取消"));
    DialogRequest::Ask(
        dialog_options(concat(app_title, " 更新"), Some(header), body, buttons, None, None),
    )
}

/// Setup asks to install missing dependencies; silently it installs them.
pub fn setup_missing_dependencies_request(
    silent: bool,
    app_title: &str,
    app_version: &str,
    dependencies: &str,
) -> (res: DialogRequest<bool>)
    ensures
        silent ==> (res matches DialogRequest::Answer(a) && a == true),
        !silent ==> asks(
            res,
            setup_title(app_title@, app_version@),
            Some(app_title@ + " 缺少系统依赖。"@),
            app_title@ + " 需要安装以下组件："@ + dependencies@ + "。是否继续？"@,
            seq![(DialogResult::OK, "安装"@, true), (DialogResult::Cancel, "取消"@, false)],
            None,
            None,
        ),
{
    if silent {
        return DialogRequest::Answer(true);
    }
    let mut body = concat3(app_title, " 需要安装以下组件：", dependencies);
    body.append("。是否继续？");
    let mut buttons = Vec::new();
    buttons.push(DialogButtonSpec::primary(DialogResult::OK, "安装"));
    buttons.push(DialogButtonSpec::secondary(DialogResult::Cancel, "取消"));
    DialogRequest::Ask(
        dialog_options(
            concat3(app_title, " 安装程序 ", app_version),
            Some(concat(app_title, " 缺少系统依赖。")),
            body,
            buttons,
            None,
            None,
        ),
    )
}

/// After an uninstall that left errors behind, the user is told so; where the log file exists
/// (`log_path` holds its displayed path), the footer names it and links to it. Silently nothing
/// is shown.
pub fn uninstall_complete_with_errors_request(
    silent: bool,
    app_title: &str,
    log_path: Option<&str>,
) -> (res: DialogRequest<()>)
    ensures
        silent ==> res is Answer,
        !silent ==> asks(
            res,
            app_title@ + " 卸载"@,
            Some(app_title@ + " 卸载已完成，但出现错误。"@),
            "系统中可能残留文件或目录。你可以手动删除，或重新安装后再试。"@,
            seq![(DialogResult::OK, "确定"@, true)],
            match log_path {
                Some(p) => Some("日志文件："@ + p@),
                None => None,
            },
            match log_path {
                Some(p) => Some(p@),
                None => None,
            },
        ),
{
    if silent {
        return DialogRequest::Answer(());
    }
    let mut footer_text = None;
    let mut footer_link = None;
    if let Some(p) = log_path {
        footer_text = Some(concat("日志文件：", p));
        footer_link = Some(String::from_str(p));
    }
    let mut buttons = Vec::new();
    buttons.push(DialogButtonSpec::primary(DialogResult::OK, "确定"));
    DialogRequest::Ask(
        dialog_options(
            concat(app_title, " 卸载"),
            Some(concat(app_title, " 卸载已完成，但出现错误。")),
            String::from_str("系统中可能残留文件或目录。你可以手动删除，或重新安装后再试。"),
            buttons,
            footer_text,
            footer_link,
        ),
    )
}

/// The update is blocked by running programs: the user may retry, let the updater close them,
/// or cancel. Silently the update is cancelled.
pub fn processes_locking_folder_request(
    silent: bool,
    app_title: &str,
    app_version: &str,
    process_names: &str,
) -> (res: DialogRequest<DialogResult>)
    ensures
        silent ==> (res matches DialogRequest::Answer(a) && a == DialogResult::Cancel),
        !silent ==> asks(
            res,
            app_title@ + " 更新 "@ + app_version@,
            Some(app_title@ + " 更新"@),
            "有程序（"@ + process_names@ + "）正在阻止 "@ + app_title@
                + " 更新继续。\n\n你可以点击“继续”让更新器尝试自动关闭这些程序，或者在你手动关闭后点击“重试”再次检查。"@,
            seq![
                (DialogResult::Retry, "重试\n已关闭后重试"@, true),
                (DialogResult::Continue, "继续\n尝试自动关闭程序"@, false),
                (DialogResult::Cancel, "取消\n更新不会继续"@, false),
            ],
            None,
            None,
        ),
{
    if silent {
        return DialogRequest::Answer(DialogResult::Cancel);
    }
    let mut body = concat3("有程序（", process_names, "）正在阻止 ");
    body.append(app_title);
    body.append(
        " 更新继续。\n\n你可以点击“继续”让更新器尝试自动关闭这些程序，或者在你手动关闭后点击“重试”再次检查。",
    );
    let mut buttons = Vec::new();
    buttons.push(DialogButtonSpec::primary(DialogResult::Retry, "重试\n已关闭后重试"));
    buttons.push(DialogButtonSpec::secondary(DialogResult::Continue, "继续\n尝试自动关闭程序"));
    buttons.push(DialogButtonSpec::secondary(DialogResult::Cancel, "取消\n更新不会继续"));
    DialogRequest::Ask(
        dialog_options(
            concat3(app_title, " 更新 ", app_version),
            Some(concat(app_title, " 更新")),
            body,
            buttons,
            None,
            None,
        ),
    )
}

/// The header, body and confirm-button label of the dialog shown when the app is already
/// installed, given the installed version's text and how it stands to the new one.
pub open spec fn overwrite_texts(
    app_title: Seq<char>,
    app_version: Seq<char>,
    installed: Option<(Seq<char>, VersionOrder)>,
) -> (Seq<char>, Seq<char>, Seq<char>) {
    match installed {
        Some((old, VersionOrder::Older)) => (
            "已安装旧版本 "@ + app_title,
            "是否从 "@ + old + " 更新到 "@ + app_version + "？"@,
            "更新\n更新到版本 "@ + app_version,
        ),
        Some((old, VersionOrder::Newer)) => (
            "已安装更新版本 "@ + app_title,
            "当前已安装 "@ + old + "。是否将应用降级到旧版本？"@,
            "降级\n降级到版本 "@ + app_version,
        ),
        _ => (
            app_title + " 已经安装。"@,
            "该应用已安装在电脑上。如果运行异常，你可以尝试修复。"@,
            "修复\n删除应用并重新安装版本 "@ + app_version,
        ),
    }
}

/// The dialog for an app that is already installed. `installed` is the installed version's
/// text with how it stands to `app_version`, when both could be read: an older one is offered
/// an update, a newer one a downgrade, otherwise a repair.
pub fn overwrite_repair_options(
    app_title: &str,
    app_version: &str,
    installed: Option<(&str, VersionOrder)>,
) -> (res: DialogOptions)
    ensures
        ({
            let t = overwrite_texts(
                app_title@,
                app_version@,
                match installed {
                    Some((v, o)) => Some((v@, o)),
                    None => None,
                },
            );
            shows(
                res,
                setup_title(app_title@, app_version@),
                Some(t.0),
                t.1,
                seq![(DialogResult::Yes, t.2, true), (DialogResult::Cancel, "取消\n请先备份或保存你的工作"@, false)],
                None,
                None,
            )
        }),
{
    let setup_name = concat3(app_title, " 安装程序 ", app_version);
    let mut instruction = concat(app_title, " 已经安装。");
    let mut content = String::from_str("该应用已安装在电脑上。如果运行异常，你可以尝试修复。");
    let mut btn_yes_txt = concat("修复\n删除应用并重新安装版本 ", app_version);
    let btn_cancel_txt = "取消\n请先备份或保存你的工作";
    if let Some((old_version, order)) = installed {
        match order {
            VersionOrder::Older => {
                instruction = concat("已安装旧版本 ", app_title);
                content = concat3("是否从 ", old_version, " 更新到 ");
                content.append(app_version);
                content.append("？");
                btn_yes_txt = concat("更新\n更新到版本 ", app_version);
            },
            VersionOrder::Newer => {
                instruction = concat("已安装更新版本 ", app_title);
                content = concat3("当前已安装 ", old_version, "。是否将应用降级到旧版本？");
                btn_yes_txt = concat("降级\n降级到版本 ", app_version);
            },
            VersionOrder::Same => {},
        }
    }
    let mut buttons = Vec::new();
    buttons.push(DialogButtonSpec::primary(DialogResult::Yes, btn_yes_txt.as_str()));
    buttons.push(DialogButtonSpec::secondary(DialogResult::Cancel, btn_cancel_txt));
    dialog_options(setup_name, Some(instruction), content, buttons, None, None)
}

/// The request for an app that is already installed: silently it goes on (reinstalling);
/// otherwise the installed version text, when there is one, is compared to `app_version` as a
/// semantic version and the dialog is built from that.
pub fn overwrite_repair_request(
    silent: bool,
    app_title: &str,
    app_version: &str,
    installed_version: Option<&str>,
) -> (res: DialogRequest<bool>)
    ensures
        silent ==> (res matches DialogRequest::Answer(a) && a == true),
        !silent ==> ({
            let installed = match installed_version {
                Some(v) => match semver_order(v@, app_version@) {
                    Some(o) => Some((v@, o)),
                    None => None,
                },
                None => None,
            };
            let t = overwrite_texts(app_title@, app_version@, installed);
            asks(
                res,
                setup_title(app_title@, app_version@),
                Some(t.0),
                t.1,
                seq![(DialogResult::Yes, t.2, true), (DialogResult::Cancel, "取消\n请先备份或保存你的工作"@, false)],
                None,
                None,
            )
        }),
        !silent && (installed_version matches Some(v) && v@ == app_version@) ==> asks(
            res,
            setup_title(app_title@, app_version@),
            Some(app_title@ + " 已经安装。"@),
            "该应用已安装在电脑上。如果运行异常，你可以尝试修复。"@,
            seq![
                (DialogResult::Yes, "修复\n删除应用并重新安装版本 "@ + app_version@, true),
                (DialogResult::Cancel, "取消\n请先备份或保存你的工作"@, false),
            ],
            None,
            None,
        ),
{
    if silent {
        return DialogRequest::Answer(true);
    }
    let installed = match installed_version {
        Some(v) => match compare_versions(v, app_version) {
            Some(o) => Some((v, o)),
            None => None,
        },
        None => None,
    };
    DialogRequest::Ask(overwrite_repair_options(app_title, app_version, installed))
}

/// Whether the dialog was answered with `accept` (`OK` for the dependency dialogs, `Yes` for
/// the repair dialog).
pub fn accepted(result: DialogResult, accept: DialogResult) -> (res: bool)
    ensures
        res == (result == accept),
{
    result == accept
}

} // verus!
