//! Application configuration as the shell consumes it.
//!
//! Window and overlay dimensions are whole logical pixels; coordinates may be
//! negative on multi-monitor layouts.
use vstd::prelude::*;

verus! {

#[derive(Clone, Debug)]
pub struct WindowConfig {
    pub width: u32,
    pub height: u32,
    pub min_width: Option<u32>,
    pub min_height: Option<u32>,
    pub max_width: Option<u32>,
    pub max_height: Option<u32>,
    pub resizable: bool,
    pub maximizable: bool,
    pub minimizable: bool,
    pub closable: bool,
    pub always_on_top: bool,
    pub center: bool,
    pub skip_taskbar: bool,
}

#[derive(Clone, Debug)]
pub struct TrayMenuItem {
    pub id: String,
    pub label: String,
    pub action: String,
}

#[derive(Clone, Debug)]
pub struct TrayMenuGroup {
    pub label: String,
    pub items: Vec<TrayMenuItem>,
}

#[derive(Clone, Debug)]
pub struct TrayConfig {
    pub enabled: bool,
    pub tooltip: Option<String>,
    pub title: Option<String>,
    pub menus: Vec<TrayMenuGroup>,
}

#[derive(Clone, Copy, Debug)]
pub struct DevConfig {
    pub open_dev_tools: bool,
}

#[derive(Clone, Copy, Debug)]
pub struct FloatBallPanelConfig {
    pub width: u32,
    pub height: u32,
    pub expand_on_hover: bool,
    pub hover_delay: u64,
}

#[derive(Clone, Debug)]
pub struct FloatBallUploadConfig {
    pub api_url: String,
    pub max_file_size: u64,
    pub allowed_types: Vec<String>,
    pub concurrent: u32,
}

/// Configuration of the floating overlay. A default position of `(0, 0)`
/// asks for automatic placement.
#[derive(Clone, Debug)]
pub struct FloatBallConfig {
    pub enabled: bool,
    pub width: u32,
    pub height: u32,
    pub default_x: i64,
    pub default_y: i64,
    pub always_on_top: bool,
    pub margin: u32,
    pub panel: FloatBallPanelConfig,
    pub upload: FloatBallUploadConfig,
}

#[derive(Clone, Debug)]
pub struct AppConfigData {
    pub name: String,
    pub version: String,
    pub author: String,
    pub description: String,
    pub homepage: Option<String>,
    pub repository: Option<String>,
    pub copyright: Option<String>,
    pub window: WindowConfig,
    pub tray: TrayConfig,
    pub float_ball: FloatBallConfig,
    pub dev: DevConfig,
}

impl FloatBallConfig {
    /// Whether the configured position is the sentinel for automatic placement.
    pub open spec fn wants_auto_placement(&self) -> bool {
        self.default_x == 0 && self.default_y == 0
    }
}

fn menu_item(id: &str, label: &str) -> (r: TrayMenuItem)
    ensures
        r.id@ == id@,
        r.label@ == label@,
        r.action@ == id@,
{
    TrayMenuItem { id: id.to_string(), label: label.to_string(), action: id.to_string() }
}

impl Default for AppConfigData {
    /// The configuration used when none is supplied.
    fn default() -> (r: Self)
        ensures
            r.name@ == "Tauri Vue Template"@,
            r.window.width == 1200 && r.window.height == 800,
            r.window.min_width == Some(800u32) && r.window.min_height == Some(600u32),
            r.window.max_width is None && r.window.max_height is None,
            r.window.resizable && r.window.maximizable && r.window.minimizable,
            r.window.closable && r.window.center,
            !r.window.always_on_top && !r.window.skip_taskbar,
            r.tray.enabled,
            r.tray.menus@.len() == 2,
            r.tray.menus@[0].items@.len() == 1,
            r.tray.menus@[0].items@[0].id@ == "about"@,
            r.tray.menus@[1].items@.len() == 2,
            r.tray.menus@[1].items@[0].id@ == "show"@,
            r.tray.menus@[1].items@[1].id@ == "quit"@,
            r.float_ball.enabled,
            r.float_ball.width == 60 && r.float_ball.height == 60,
            r.float_ball.wants_auto_placement(),
            r.float_ball.always_on_top,
            r.float_ball.margin == 80,
            r.float_ball.panel.width == 320 && r.float_ball.panel.height == 450,
            r.float_ball.panel.expand_on_hover && r.float_ball.panel.hover_delay == 300,
            r.float_ball.upload.max_file_size == 104857600,
            r.float_ball.upload.allowed_types@.len() == 0,
            r.float_ball.upload.concurrent == 3,
            !r.dev.open_dev_tools,
    {
        let app_items = vec![menu_item("about", "关于")];
        let window_items = vec![menu_item("show", "显示窗口"), menu_item("quit", "退出")];
        AppConfigData {
            name: "Tauri Vue Template".to_string(),
            version: "1.0.0".to_string(),
            author: "Your Name".to_string(),
            description: "基于 Tauri + Vue 3 + TypeScript 的跨平台桌面应用开发模板".to_string(),
            homepage: Some("https://github.com".to_string()),
            repository: Some("https://github.com".to_string()),
            copyright: Some("Copyright © 2025 Your Name. All rights reserved.".to_string()),
            window: WindowConfig {
                width: 1200,
                height: 800,
                min_width: Some(800),
                min_height: Some(600),
                max_width: None,
                max_height: None,
                resizable: true,
                maximizable: true,
                minimizable: true,
                closable: true,
                always_on_top: false,
                center: true,
                skip_taskbar: false,
            },
            tray: TrayConfig {
                enabled: true,
                tooltip: Some("Tauri Vue Template".to_string()),
                title: Some("TVT".to_string()),
                menus: vec![
                    TrayMenuGroup { label: "应用".to_string(), items: app_items },
                    TrayMenuGroup { label: "窗口".to_string(), items: window_items },
                ],
            },
            float_ball: FloatBallConfig {
                enabled: true,
                width: 60,
                height: 60,
                default_x: 0,
                default_y: 0,
                always_on_top: true,
                margin: 80,
                panel: FloatBallPanelConfig {
                    width: 320,
                    height: 450,
                    expand_on_hover: true,
                    hover_delay: 300,
                },
                upload: FloatBallUploadConfig {
                    api_url: "/api/upload".to_string(),
                    max_file_size: 104857600,
                    allowed_types: vec![],
                    concurrent: 3,
                },
            },
            dev: DevConfig { open_dev_tools: false },
        }
    }
}

} // verus!
