//! The application's other windows (main, login, about) and the tray menu.
//!
//! Each command is a list of [`Step`]s for the host to perform in order. A
//! failed required step ends the command with its cause; a failed optional
//! step is ignored. [`command_result`] turns the host's report into the
//! command's result.
use crate::config::AppConfigData;
use vstd::prelude::*;

verus! {

/// The role of a managed window.
#[derive(Clone, Copy, Debug, PartialEq, Eq, Structural)]
pub enum WindowRole {
    Main,
    Login,
    Overlay,
    About,
}

/// What the host does to a window.
#[derive(Clone, Copy, Debug, PartialEq, Eq, Structural)]
pub enum RoleAction {
    /// Build the role's window.
    Create,
    Show,
    Focus,
    Unminimize,
    Hide,
    OpenDevTools,
}

#[derive(Clone, Copy, Debug, PartialEq, Eq, Structural)]
pub struct Step {
    pub role: WindowRole,
    pub action: RoleAction,
    /// Whether a failure of this step fails the command.
    pub required: bool,
}

/// What a tray menu entry or a tray click asks for.
#[derive(Clone, Debug, PartialEq, Eq)]
pub enum TrayAction {
    /// Perform these steps; their failures are ignored.
    Run(Vec<Step>),
    /// Exit the application.
    Quit,
    /// Nothing to do.
    Ignore,
}

pub open spec fn step(role: WindowRole, action: RoleAction, required: bool) -> Step {
    Step { role, action, required }
}

pub open spec fn optional_hide(exists: bool, role: WindowRole) -> Seq<Step> {
    if exists {
        seq![step(role, RoleAction::Hide, false)]
    } else {
        Seq::empty()
    }
}

/// Showing the main window: show, focus and restore it, open the developer
/// tools when asked, and hide the login window if there is one.
pub open spec fn show_main_spec(main_exists: bool, login_exists: bool, open_dev_tools: bool) -> Result<
    Seq<Step>,
    Seq<char>,
> {
    if !main_exists {
        Err("Main window not found"@)
    } else {
        Ok(
            seq![
                step(WindowRole::Main, RoleAction::Show, true),
                step(WindowRole::Main, RoleAction::Focus, true),
                step(WindowRole::Main, RoleAction::Unminimize, true),
            ] + (if open_dev_tools {
                seq![step(WindowRole::Main, RoleAction::OpenDevTools, false)]
            } else {
                Seq::empty()
            }) + optional_hide(login_exists, WindowRole::Login),
        )
    }
}

/// Showing the login window: create it if missing, show and focus it, and
/// hide the main window if there is one.
pub open spec fn show_login_spec(login_exists: bool, main_exists: bool) -> Seq<Step> {
    (if login_exists {
        Seq::empty()
    } else {
        seq![step(WindowRole::Login, RoleAction::Create, true)]
    }) + seq![
        step(WindowRole::Login, RoleAction::Show, true),
        step(WindowRole::Login, RoleAction::Focus, true),
    ] + optional_hide(main_exists, WindowRole::Main)
}

/// The result of a command whose steps reported `results` from index `i` on.
pub open spec fn outcome_from(steps: Seq<Step>, results: Seq<Result<(), String>>, i: int) -> Result<
    (),
    Seq<char>,
>
    decreases results.len() - i,
{
    if i < 0 || i >= results.len() {
        Ok(())
    } else {
        match results[i] {
            Err(cause) => if steps[i].required {
                Err(cause@)
            } else {
                outcome_from(steps, results, i + 1)
            },
            Ok(_) => outcome_from(steps, results, i + 1),
        }
    }
}

/// Whether the host goes on after a step that returned `result`.
pub open spec fn continues_spec(s: Step, result: Result<(), String>) -> bool {
    !(s.required && result is Err)
}

/// Whether the host goes on after `s` returned `result`: only a failed
/// required step stops the command.
pub fn continues_after(s: &Step, result: &Result<(), String>) -> (r: bool)
    ensures
        r == continues_spec(*s, *result),
{
    !(s.required && result.is_err())
}

/// The result of a command from the results of its steps, in order: the
/// cause of the first failed required step, else success.
pub fn command_result(steps: &Vec<Step>, results: &Vec<Result<(), String>>) -> (r: Result<(), String>)
    requires
        results@.len() <= steps@.len(),
    ensures
        match r {
            Ok(_) => outcome_from(steps@, results@, 0) is Ok,
            Err(cause) => outcome_from(steps@, results@, 0) == Err::<(), Seq<char>>(cause@),
        },
{
    let mut i: usize = 0;
    while i < results.len()
        invariant
            results@.len() <= steps@.len(),
            i <= results@.len(),
            outcome_from(steps@, results@, 0) == outcome_from(steps@, results@, i as int),
        decreases results@.len() - i,
    {
        match &results[i] {
            Err(cause) => {
                if steps[i].required {
                    return Err(cause.clone());
                }
            },
            Ok(_) => {},
        }
        i = i + 1;
    }
    Ok(())
}

fn push_step(v: &mut Vec<Step>, role: WindowRole, action: RoleAction, required: bool)
    ensures
        final(v)@ == old(v)@.push(step(role, action, required)),
{
    v.push(Step { role, action, required });
}

/// The steps that bring the main window to the front, or the error when it
/// does not exist.
pub fn show_main_window(main_exists: bool, login_exists: bool, open_dev_tools: bool) -> (r: Result<
    Vec<Step>,
    String,
>)
    ensures
        match r {
            Ok(steps) => show_main_spec(main_exists, login_exists, open_dev_tools) == Ok::<
                Seq<Step>,
                Seq<char>,
            >(steps@),
            Err(msg) => show_main_spec(main_exists, login_exists, open_dev_tools) == Err::<
                Seq<Step>,
                Seq<char>,
            >(msg@),
        },
{
    if !main_exists {
        return Err("Main window not found".to_string());
    }
    let mut v: Vec<Step> = Vec::new();
    push_step(&mut v, WindowRole::Main, RoleAction::Show, true);
    push_step(&mut v, WindowRole::Main, RoleAction::Focus, true);
    push_step(&mut v, WindowRole::Main, RoleAction::Unminimize, true);
    if open_dev_tools {
        push_step(&mut v, WindowRole::Main, RoleAction::OpenDevTools, false);
    }
    if login_exists {
        push_step(&mut v, WindowRole::Login, RoleAction::Hide, false);
    }
    assert(v@ =~= show_main_spec(main_exists, login_exists, open_dev_tools)->Ok_0);
    Ok(v)
}

/// The steps that bring the login window to the front.
pub fn show_login_window(login_exists: bool, main_exists: bool) -> (r: Vec<Step>)
    ensures
        r@ == show_login_spec(login_exists, main_exists),
{
    let mut v: Vec<Step> = Vec::new();
    if !login_exists {
        push_step(&mut v, WindowRole::Login, RoleAction::Create, true);
    }
    push_step(&mut v, WindowRole::Login, RoleAction::Show, true);
    push_step(&mut v, WindowRole::Login, RoleAction::Focus, true);
    if main_exists {
        push_step(&mut v, WindowRole::Main, RoleAction::Hide, false);
    }
    assert(v@ =~= show_login_spec(login_exists, main_exists));
    v
}

fn text_eq(a: &str, b: &str) -> (r: bool)
    ensures
        r == (a@ == b@),
{
    let n = a.unicode_len();
    if n != b.unicode_len() {
        return false;
    }
    let mut i: usize = 0;
    while i < n
        invariant
            n == a@.len() == b@.len(),
            i <= n,
            forall|j: int| 0 <= j < i ==> a@[j] == b@[j],
        decreases n - i,
    {
        if a.get_char(i) != b.get_char(i) {
            return false;
        }
        i = i + 1;
    }
    assert(a@ =~= b@);
    true
}

/// The steps of a tray menu entry: `about` shows the about window or creates
/// it, `show` brings the main window to the front, `quit` exits; anything
/// else, `settings` included, does nothing.
pub fn tray_menu_action(id: &str, main_exists: bool, about_exists: bool) -> (r: TrayAction)
    ensures
        id@ == "about"@ ==> (r matches TrayAction::Run(s) && (if about_exists {
            s@ == seq![
                step(WindowRole::About, RoleAction::Show, false),
                step(WindowRole::About, RoleAction::Focus, false),
            ]
        } else {
            s@ == seq![step(WindowRole::About, RoleAction::Create, false)]
        })),
        id@ == "show"@ ==> (if main_exists {
            r matches TrayAction::Run(s) && s@ == seq![
                step(WindowRole::Main, RoleAction::Show, false),
                step(WindowRole::Main, RoleAction::Focus, false),
            ]
        } else {
            r is Ignore
        }),
        id@ == "quit"@ ==> r is Quit,
        id@ != "about"@ && id@ != "show"@ && id@ != "quit"@ ==> r is Ignore,
{
    proof {
        reveal_strlit("about");
        reveal_strlit("show");
        reveal_strlit("quit");
        assert("about"@[0] != "show"@[0] && "about"@[0] != "quit"@[0] && "show"@[0] != "quit"@[0]);
    }
    if text_eq(id, "about") {
        let mut v: Vec<Step> = Vec::new();
        if about_exists {
            push_step(&mut v, WindowRole::About, RoleAction::Show, false);
            push_step(&mut v, WindowRole::About, RoleAction::Focus, false);
        } else {
            push_step(&mut v, WindowRole::About, RoleAction::Create, false);
        }
        TrayAction::Run(v)
    } else if text_eq(id, "show") {
        tray_click_action(main_exists)
    } else if text_eq(id, "quit") {
        TrayAction::Quit
    } else {
        TrayAction::Ignore
    }
}

/// A click on the tray icon brings the main window to the front.
pub fn tray_click_action(main_exists: bool) -> (r: TrayAction)
    ensures
        if main_exists {
            r matches TrayAction::Run(s) && s@ == seq![
                step(WindowRole::Main, RoleAction::Show, false),
                step(WindowRole::Main, RoleAction::Focus, false),
            ]
        } else {
            r is Ignore
        },
{
    if main_exists {
        let mut v: Vec<Step> = Vec::new();
        push_step(&mut v, WindowRole::Main, RoleAction::Show, false);
        push_step(&mut v, WindowRole::Main, RoleAction::Focus, false);
        TrayAction::Run(v)
    } else {
        TrayAction::Ignore
    }
}

/// The tray tooltip: the configured one, else the application's name.
pub fn tray_tooltip(config: &AppConfigData) -> (r: String)
    ensures
        r@ == match config.tray.tooltip {
            Some(t) => t@,
            None => config.name@,
        },
{
    match &config.tray.tooltip {
        Some(t) => t.clone(),
        None => config.name.clone(),
    }
}

/// The tray title: the configured one, else empty.
pub fn tray_title(config: &AppConfigData) -> (r: String)
    ensures
        r@ == match config.tray.title {
            Some(t) => t@,
            None => Seq::<char>::empty(),
        },
{
    match &config.tray.title {
        Some(t) => t.clone(),
        None => String::new(),
    }
}

/// A size limit of the main window applies only when both of its sides are
/// configured.
pub fn size_limit(width: Option<u32>, height: Option<u32>) -> (r: Option<(u32, u32)>)
    ensures
        r == (match (width, height) {
            (Some(w), Some(h)) => Some((w, h)),
            _ => None::<(u32, u32)>,
        }),
{
    match (width, height) {
        (Some(w), Some(h)) => Some((w, h)),
        _ => None,
    }
}

} // verus!
