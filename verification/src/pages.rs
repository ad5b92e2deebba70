//! The pages that the application serves itself, as text.
//!
//! Each page is a fixed frame with the user's data written into its gaps. The
//! data comes in as it is; nothing here reads a store. The history and the
//! downloads show their times in the time zone of the machine.

use vstd::prelude::*;
use vstd::string::StringExecFns;
use crate::data::AppSettings;
use crate::data::AppSettingsModel;
use crate::data::FavoriteItem;
use crate::data::FavoriteItemModel;
use crate::downloads::DownloadItem;
use crate::downloads::DownloadItemModel;
use crate::clock::local_date;
use crate::history_manager::HistoryItem as Visit;
use crate::history_manager::HistoryItemModel as VisitModel;
use crate::text::chars_of;
use crate::text::replace_all;
use crate::text::replaced;
use crate::text::string_of;

verus! {

/// The style and the script that the history, the downloads and the favorites share.
pub const PAGE_STYLE: &'static str = r##"
        <style>
            :root { --primary: #05B8CC; --bg: #121212; --card: #1e1e1e; --text: #e0e0e0; --text-dim: #a0a0a0; }
            body { font-family: 'Segoe UI', system-ui, sans-serif; padding: 40px; background: var(--bg); color: var(--text); max-width: 900px; margin: 0 auto; }
            h1 { border-bottom: 2px solid #333; padding-bottom: 20px; margin-bottom: 30px; font-weight: 600; color: var(--primary); letter-spacing: 1px; }
            .item { background: var(--card); padding: 15px 20px; margin-bottom: 10px; border-radius: 8px; border-left: 4px solid var(--primary); display: flex; align-items: center; gap: 20px; transition: transform 0.2s; }
            .item:hover { transform: translateX(5px); }
            .time, .meta { color: var(--text-dim); font-size: 0.85em; white-space: nowrap; }
            .title, .filename { font-weight: 500; margin-bottom: 4px; color: #fff; font-size: 1.1em; }
            .url a { color: var(--text-dim); font-size: 0.9em; text-decoration: none; display: block; white-space: nowrap; overflow: hidden; text-overflow: ellipsis; }
            .url a:hover { color: var(--primary); }
            button { padding: 8px 16px; cursor: pointer; border: 1px solid #333; background: #2d2d2d; border-radius: 6px; color: #fff; transition: all 0.2s; }
            button:hover { background: var(--primary); border-color: var(--primary); color: #000; }
            .empty-state { text-align: center; color: var(--text-dim); padding: 60px; font-size: 1.2em; border: 2px dashed #333; border-radius: 12px; }
            /* Scrollbar */
            ::-webkit-scrollbar { width: 10px; }
            ::-webkit-scrollbar-track { background: var(--bg); }
            ::-webkit-scrollbar-thumb { background: #333; border-radius: 5px; }
            ::-webkit-scrollbar-thumb:hover { background: var(--primary); }
            @keyframes slideIn { from { transform: translateY(100%); opacity: 0; } to { transform: translateY(0); opacity: 1; } }
        </style>
        <script>
            (function() {
                if (window.__TAURI__) {
                    window.__TAURI__.event.listen('lua-bridge-message', (event) => {
                        console.log("Lua Bridge:", event.payload);
                        let el = document.getElementById('bridge-msg');
                        if (!el) {
                            el = document.createElement('div');
                            el.id = 'bridge-msg';
                            el.style.cssText = "position: fixed; bottom: 20px; right: 20px; background: #7C4DFF; color: white; padding: 15px; border-radius: 8px; z-index: 9999; box-shadow: 0 4px 12px rgba(0,0,0,0.3); animation: slideIn 0.3s ease-out; font-weight: 500; display: flex; align-items: center; gap: 10px;";
                            document.body.appendChild(el);
                        }
                        el.innerHTML = "<span>🔮</span> " + event.payload;
                        
                        // Auto hide after 5s
                        if (window.bridgeTimeout) clearTimeout(window.bridgeTimeout);
                        window.bridgeTimeout = setTimeout(() => {
                            if(el) {
                                el.style.opacity = '0';
                                el.style.transform = 'translateY(100%)';
                                setTimeout(() => el.remove(), 300);
                            }
                        }, 5000);
                    });
                }
            })();
        </script>
    "##;

/// One entry of the history page, first part.
pub const HISTORY_ITEM_0: &'static str = r##"<div class="item">
                        <div class="time">"##;

/// One entry of the history page, second part.
pub const HISTORY_ITEM_1: &'static str = r##"</div>
                        <div class="info">
                            <div class="title">"##;

/// One entry of the history page, third part.
pub const HISTORY_ITEM_2: &'static str = r##"</div>
                            <div class="url"><a href=""##;

/// One entry of the history page, fourth part.
pub const HISTORY_ITEM_3: &'static str = r##"">"##;

/// One entry of the history page, fifth part.
pub const HISTORY_ITEM_4: &'static str = r##"</a></div>
                        </div>
                    </div>"##;

/// What the history page shows where nothing was visited.
pub const HISTORY_EMPTY: &'static str = r##"<div class="empty-state">No history yet</div>"##;

/// The history page, first part.
pub const HISTORY_PAGE_0: &'static str = r##"<!DOCTYPE html>
                <html>
                <head>
                    <title>History - Lumina</title>
                    <meta charset="UTF-8">
                    "##;

/// The history page, second part.
pub const HISTORY_PAGE_1: &'static str = r##"
                </head>
                <body>
                    <h1>History</h1>
                    <div id="list">"##;

/// The history page, third part.
pub const HISTORY_PAGE_2: &'static str = r##"</div>
                </body>
                </html>"##;

/// One entry of the downloads page, first part.
pub const DOWNLOAD_ITEM_0: &'static str = r##"<div class="item" style="border-left-color: "##;

/// One entry of the downloads page, second part.
pub const DOWNLOAD_ITEM_1: &'static str = r##";">
                        <div class="icon" style="font-size: 24px; width: 40px; text-align: center;">⬇️</div>
                        <div class="info">
                            <div class="filename">"##;

/// One entry of the downloads page, third part.
pub const DOWNLOAD_ITEM_2: &'static str = r##"</div>
                            <div class="url"><a href=""##;

/// One entry of the downloads page, fourth part.
pub const DOWNLOAD_ITEM_3: &'static str = r##"">"##;

/// One entry of the downloads page, fifth part.
pub const DOWNLOAD_ITEM_4: &'static str = r##"</a></div>
                            <div class="meta" style="color: var(--text-dim);">"##;

/// One entry of the downloads page, sixth part.
pub const DOWNLOAD_ITEM_5: &'static str = r##" • "##;

/// One entry of the downloads page, seventh part.
pub const DOWNLOAD_ITEM_6: &'static str = r##" • "##;

/// One entry of the downloads page, eighth part.
pub const DOWNLOAD_ITEM_7: &'static str = r##"</div>
                        </div>
                        <div class="actions">
                            <button onclick="window.__TAURI__.core.invoke('open_file', { path: '"##;

/// One entry of the downloads page, ninth part.
pub const DOWNLOAD_ITEM_8: &'static str = r##"' })">Open</button>
                            <button onclick="window.__TAURI__.core.invoke('show_in_folder', { path: '"##;

/// One entry of the downloads page, tenth part.
pub const DOWNLOAD_ITEM_9: &'static str = r##"' })">Folder</button>
                        </div>
                    </div>"##;

/// What the downloads page shows where nothing was downloaded.
pub const DOWNLOADS_EMPTY: &'static str = r##"<div class="empty-state">No downloads yet</div>"##;

/// The downloads page, first part.
pub const DOWNLOADS_PAGE_0: &'static str = r##"<!DOCTYPE html>
                <html>
                <head>
                    <title>Downloads - Lumina</title>
                    <meta charset="UTF-8">
                    "##;

/// The downloads page, second part.
pub const DOWNLOADS_PAGE_1: &'static str = r##"
                </head>
                <body>
                    <h1>Downloads</h1>
                    <div id="list">"##;

/// The downloads page, third part.
pub const DOWNLOADS_PAGE_2: &'static str = r##"</div>
                </body>
                </html>"##;

/// One entry of the favorites page, first part.
pub const FAVORITE_ITEM_0: &'static str = r##"<div class="item">
                        <div class="icon" style="color: #FFD700; font-size: 24px;">★</div>
                        <div class="info">
                            <div class="filename">"##;

/// One entry of the favorites page, second part.
pub const FAVORITE_ITEM_1: &'static str = r##"</div>
                            <div class="url"><a href=""##;

/// One entry of the favorites page, third part.
pub const FAVORITE_ITEM_2: &'static str = r##"">"##;

/// One entry of the favorites page, fourth part.
pub const FAVORITE_ITEM_3: &'static str = r##"</a></div>
                        </div>
                        <div class="actions">
                            <button style="border-color: #ef5350; color: #ef5350;" onmouseover="this.style.background='#ef5350'; this.style.color='white'" onmouseout="this.style.background='transparent'; this.style.color='#ef5350'" onclick="window.__TAURI__.core.invoke('remove_favorite', { url: '"##;

/// One entry of the favorites page, fifth part.
pub const FAVORITE_ITEM_4: &'static str = r##"' }).then(() => window.location.reload())">Remove</button>
                        </div>
                    </div>"##;

/// What the favorites page shows where nothing is marked.
pub const FAVORITES_EMPTY: &'static str = r##"<div class="empty-state">No favorites yet</div>"##;

/// The favorites page, first part.
pub const FAVORITES_PAGE_0: &'static str = r##"<!DOCTYPE html>
                <html>
                <head>
                    <title>Favorites - Lumina</title>
                    <meta charset="UTF-8">
                    "##;

/// The favorites page, second part.
pub const FAVORITES_PAGE_1: &'static str = r##"
                </head>
                <body>
                    <h1>Favorites</h1>
                    <div id="list">
                        "##;

/// The favorites page, third part.
pub const FAVORITES_PAGE_2: &'static str = r##"
                    </div>
                </body>
                </html>"##;

/// The style of the store page.
pub const STORE_STYLE: &'static str = r##"
                body { font-family: 'Segoe UI', system-ui, sans-serif; background: #0f172a; color: #e2e8f0; margin: 0; padding: 0; }
                .container { max-width: 1000px; margin: 0 auto; padding: 40px 20px; }
                header { display: flex; align-items: center; justify-content: space-between; margin-bottom: 40px; border-bottom: 1px solid #334155; padding-bottom: 20px; }
                h1 { margin: 0; font-size: 2.5rem; background: linear-gradient(to right, #3b82f6, #10b981); -webkit-background-clip: text; -webkit-text-fill-color: transparent; }
                .tagline { color: #94a3b8; font-size: 1.1rem; }
                .grid { display: grid; grid-template-columns: repeat(auto-fill, minmax(300px, 1fr)); gap: 24px; }
                .card { background: #1e293b; border: 1px solid #334155; border-radius: 12px; padding: 24px; transition: transform 0.2s, border-color 0.2s; position: relative; overflow: hidden; }
                .card:hover { transform: translateY(-4px); border-color: #3b82f6; }
                .card-header { display: flex; align-items: center; gap: 12px; margin-bottom: 16px; }
                .icon { width: 48px; height: 48px; background: #334155; border-radius: 10px; display: flex; align-items: center; justify-content: center; font-size: 24px; }
                .card h3 { margin: 0; font-size: 1.25rem; color: #f8fafc; }
                .author { font-size: 0.875rem; color: #64748b; margin-top: 4px; }
                .desc { color: #cbd5e1; line-height: 1.5; margin-bottom: 20px; font-size: 0.95rem; }
                .meta { display: flex; gap: 12px; font-size: 0.8rem; color: #64748b; margin-bottom: 20px; }
                .tag { background: #334155; padding: 2px 8px; border-radius: 4px; color: #94a3b8; }
                .btn { display: block; text-align: center; background: #3b82f6; color: white; text-decoration: none; padding: 10px; border-radius: 8px; font-weight: 600; transition: background 0.2s; }
                .btn:hover { background: #2563eb; }
                .btn.installed { background: #10b981; pointer-events: none; opacity: 0.8; }
                .badge-verified { color: #10b981; display: inline-flex; align-items: center; gap: 4px; font-size: 0.8rem; margin-left: auto; }
            "##;

/// The store page, first part.
pub const STORE_PAGE_0: &'static str = r##"<!DOCTYPE html>
                <html>
                <head>
                    <title>Lumina Store</title>
                    <meta charset="UTF-8">
                    <style>"##;

/// The store page, second part.
pub const STORE_PAGE_1: &'static str = r##"</style>
                </head>
                <body>
                    <div class="container">
                        <header>
                            <div>
                                <h1>Lumina Store</h1>
                                <div class="tagline">Secure, Sandboxed, No-JS Extensions</div>
                            </div>
                            <div style="text-align: right">
                                <div style="font-size: 0.9rem; color: #94a3b8;">Balance</div>
                                <div style="font-size: 1.2rem; font-weight: bold;">0 LUM</div>
                            </div>
                        </header>

                        <div class="grid">
                            <!-- Item 1: Init Script -->
                            <div class="card">
                                <div class="card-header">
                                    <div class="icon">🚀</div>
                                    <div>
                                        <h3>Dev Starter Pack</h3>
                                        <div class="author">by @safkanyapi</div>
                                    </div>
                                    <div class="badge-verified">✓ Verified</div>
                                </div>
                                <div class="desc">
                                    Essential initialization scripts for Lua development. Includes debug helpers and environment checks.
                                </div>
                                <div class="meta">
                                    <span class="tag">System</span>
                                    <span class="tag">Lua</span>
                                    <span class="tag">v1.0.0</span>
                                </div>
                                <a href="lumina-app://install?id=init-script" class="btn">Install</a>
                            </div>

                            <!-- Item 2: Adblock Plus -->
                            <div class="card">
                                <div class="card-header">
                                    <div class="icon">🛡️</div>
                                    <div>
                                        <h3>AdShield Pro</h3>
                                        <div class="author">by @community</div>
                                    </div>
                                </div>
                                <div class="desc">
                                    Enhanced filter lists for Turkish media sites. Blocks aggressive trackers and mining scripts.
                                </div>
                                <div class="meta">
                                    <span class="tag">Privacy</span>
                                    <span class="tag">Filters</span>
                                    <span class="tag">v2.1.0</span>
                                </div>
                                <a href="lumina-app://install?id=adshield" class="btn">Install</a>
                            </div>

                            <!-- Item 3: Offline AI (Placeholder) -->
                            <div class="card" style="opacity: 0.7; border-style: dashed;">
                                <div class="card-header">
                                    <div class="icon">🧠</div>
                                    <div>
                                        <h3>Local Brain (Phi-2)</h3>
                                        <div class="author">by @lumina_ai</div>
                                    </div>
                                </div>
                                <div class="desc">
                                    Run LLMs locally on your device. Zero data leaves your machine. (Coming Soon)
                                </div>
                                <div class="meta">
                                    <span class="tag">AI</span>
                                    <span class="tag">Experimental</span>
                                </div>
                                <a href="#" class="btn" style="background: #475569; cursor: not-allowed;">Coming Soon</a>
                            </div>
                            
                            <!-- Item 4: Dark Reader -->
                            <div class="card">
                                <div class="card-header">
                                    <div class="icon">🌙</div>
                                    <div>
                                        <h3>Night Owl</h3>
                                        <div class="author">by @nightwalker</div>
                                    </div>
                                </div>
                                <div class="desc">
                                    Forces dark mode on all internal pages and supported websites via CSS injection.
                                </div>
                                <div class="meta">
                                    <span class="tag">Theme</span>
                                    <span class="tag">CSS</span>
                                </div>
                                <a href="lumina-app://install?id=night-owl" class="btn">Install</a>
                            </div>
                        </div>
                    </div>
                </body>
                </html>"##;

/// The settings page, first part.
pub const SETTINGS_PAGE_0: &'static str = r##"<!DOCTYPE html>
                <html>
                <head>
                    <title>Settings</title>
                    <meta charset="UTF-8">
                    <style>
                        body { font-family: -apple-system, BlinkMacSystemFont, "Segoe UI", Roboto, Helvetica, Arial, sans-serif; padding: 40px; background: #f9fafb; color: #111827; max-width: 600px; margin: 0 auto; }
                        h1 { border-bottom: 1px solid #e5e7eb; padding-bottom: 20px; margin-bottom: 30px; }
                        .group { background: white; padding: 25px; margin-bottom: 20px; border-radius: 12px; box-shadow: 0 1px 3px rgba(0,0,0,0.1); }
                        .form-group { margin-bottom: 20px; }
                        .form-group:last-child { margin-bottom: 0; }
                        label { display: block; margin-bottom: 8px; font-weight: 500; font-size: 0.95em; color: #374151; }
                        input[type="text"], select { width: 100%; padding: 10px; border: 1px solid #d1d5db; border-radius: 6px; font-size: 1em; box-sizing: border-box; transition: border-color 0.2s; }
                        input[type="text"]:focus, select:focus { outline: none; border-color: #2563eb; ring: 2px solid #bfdbfe; }
                        .checkbox-group { display: flex; align-items: center; }
                        input[type="checkbox"] { width: 18px; height: 18px; margin-right: 10px; }
                        button { background: #2563eb; color: white; border: none; padding: 12px 24px; border-radius: 8px; font-size: 1em; font-weight: 500; cursor: pointer; transition: background 0.2s; width: 100%; margin-top: 10px; }
                        button:hover { background: #1d4ed8; }
                    </style>
                </head>
                <body>
                    <h1>Settings</h1>
                    <div class="group">
                        <div class="form-group">
                            <label>Homepage URL</label>
                            <input type="text" id="homepage" value=""##;

/// The settings page, second part.
pub const SETTINGS_PAGE_1: &'static str = r##"">
                        </div>
                        <div class="form-group">
                            <label>Search Engine</label>
                            <select id="search_engine">
                                <option value="google" "##;

/// The settings page, third part.
pub const SETTINGS_PAGE_2: &'static str = r##">Google</option>
                                <option value="bing" "##;

/// The settings page, fourth part.
pub const SETTINGS_PAGE_3: &'static str = r##">Bing</option>
                                <option value="duckduckgo" "##;

/// The settings page, fifth part.
pub const SETTINGS_PAGE_4: &'static str = r##">DuckDuckGo</option>
                            </select>
                        </div>
                    </div>
                    
                    <div class="group">
                        <div class="form-group">
                            <label>Theme</label>
                            <select id="theme">
                                <option value="dark" "##;

/// The settings page, sixth part.
pub const SETTINGS_PAGE_5: &'static str = r##">Dark</option>
                                <option value="light" "##;

/// The settings page, seventh part.
pub const SETTINGS_PAGE_6: &'static str = r##">Light</option>
                                <option value="system" "##;

/// The settings page, eighth part.
pub const SETTINGS_PAGE_7: &'static str = r##">System</option>
                            </select>
                        </div>
                        <div class="form-group">
                            <label>Accent Color</label>
                            <input type="text" id="accent_color" value=""##;

/// The settings page, ninth part.
pub const SETTINGS_PAGE_8: &'static str = r##"">
                        </div>
                    </div>

                    <div class="group">
                        <div class="form-group checkbox-group">
                            <input type="checkbox" id="vertical_tabs" "##;

/// The settings page, tenth part.
pub const SETTINGS_PAGE_9: &'static str = r##">
                            <label for="vertical_tabs" style="margin-bottom: 0">Vertical Tabs</label>
                        </div>
                        <div class="form-group checkbox-group">
                            <input type="checkbox" id="rounded_corners" "##;

/// The settings page, eleventh part.
pub const SETTINGS_PAGE_10: &'static str = r##">
                            <label for="rounded_corners" style="margin-bottom: 0">Rounded Corners</label>
                        </div>
                    </div>

                    <button onclick="save()">Save Settings</button>

                    <script>
                        function save() {
                            const homepage = document.getElementById('homepage').value;
                            const search_engine = document.getElementById('search_engine').value;
                            const theme = document.getElementById('theme').value;
                            const accent_color = document.getElementById('accent_color').value;
                            const vertical_tabs = document.getElementById('vertical_tabs').checked;
                            const rounded_corners = document.getElementById('rounded_corners').checked;

                            window.__TAURI__.core.invoke('save_settings', {
                                homepage, 
                                searchEngine: search_engine, 
                                theme, 
                                accentColor: accent_color, 
                                verticalTabs: vertical_tabs, 
                                roundedCorners: rounded_corners
                            }).then(() => {
                                alert('Settings saved!');
                            }).catch(e => {
                                alert('Error saving settings: ' + e);
                            });
                        }
                    </script>
                </body>
                </html>"##;

/// The page of the network manager.
pub const NETWORK_PAGE: &'static str = r##"<!DOCTYPE html>
                <html>
                <head>
                    <title>Network Manager</title>
                    <meta charset="UTF-8">
                    <style>
                        body { font-family: system-ui, -apple-system, sans-serif; padding: 40px; background: #f9fafb; color: #111827; max-width: 800px; margin: 0 auto; }
                        h1 { border-bottom: 1px solid #e5e7eb; padding-bottom: 20px; margin-bottom: 30px; font-weight: 600; }
                        .card { background: white; padding: 25px; margin-bottom: 20px; border-radius: 12px; box-shadow: 0 1px 3px rgba(0,0,0,0.1); }
                        h2 { margin-top: 0; font-size: 1.2em; color: #374151; border-bottom: 1px solid #f3f4f6; padding-bottom: 10px; margin-bottom: 15px; }
                        .status-item { display: flex; justify-content: space-between; padding: 10px 0; border-bottom: 1px solid #f3f4f6; }
                        .status-item:last-child { border-bottom: none; }
                        .label { font-weight: 500; color: #6b7280; }
                        .value { font-family: monospace; color: #111827; }
                        .form-row { display: flex; gap: 10px; align-items: flex-end; }
                        .input-group { flex: 1; }
                        label { display: block; margin-bottom: 5px; font-size: 0.9em; font-weight: 500; color: #374151; }
                        input, select { width: 100%; padding: 8px 12px; border: 1px solid #d1d5db; border-radius: 6px; box-sizing: border-box; }
                        button { padding: 9px 16px; background: #2563eb; color: white; border: none; border-radius: 6px; cursor: pointer; font-weight: 500; transition: background 0.2s; }
                        button:hover { background: #1d4ed8; }
                        button.secondary { background: white; border: 1px solid #d1d5db; color: #374151; }
                        button.secondary:hover { background: #f3f4f6; }
                        button.danger { background: #dc2626; color: white; border: none; }
                        button.danger:hover { background: #b91c1c; }
                        #server-list { margin-top: 10px; }
                        .empty-list { color: #9ca3af; font-style: italic; padding: 10px 0; }
                    </style>
                </head>
                <body>
                    <h1>Network Manager</h1>
                    
                    <div class="card">
                        <h2>Sidecar Status</h2>
                        <div id="status-display">
                            <div class="status-item">
                                <span class="label">Status</span>
                                <span class="value" id="connection-status">Checking...</span>
                            </div>
                            <div class="status-item">
                                <span class="label">Active Servers</span>
                                <span class="value" id="active-count">0</span>
                            </div>
                        </div>
                    </div>

                    <div class="card">
                        <h2>Active Servers</h2>
                        <div id="server-list">
                            <div class="empty-list">No active servers</div>
                        </div>
                    </div>

                    <div class="card">
                        <h2>Start New Server</h2>
                        <div class="form-row">
                            <div class="input-group">
                                <label>Port</label>
                                <input type="number" id="port-input" value="8080" min="1" max="65535">
                            </div>
                            <div class="input-group">
                                <label>Type</label>
                                <select id="type-input">
                                    <option value="tcp">TCP</option>
                                </select>
                            </div>
                            <button onclick="startServer()">Start Server</button>
                        </div>
                    </div>

                    <script>
                        async function invokeNet(command, payload = {}) {
                            try {
                                const res = await window.__TAURI__.core.invoke('run_networking_command', { 
                                    command: command, 
                                    payload: JSON.stringify(payload) 
                                });
                                return JSON.parse(res);
                            } catch (e) {
                                console.error("Network Error:", e);
                                return { status: "error", message: e };
                            }
                        }

                        async function refreshStatus() {
                            const res = await invokeNet('status');
                            if (res.status === 'ok') {
                                document.getElementById('connection-status').textContent = 'Connected';
                                document.getElementById('connection-status').style.color = '#10b981';
                                
                                const servers = res.data.active_servers || [];
                                document.getElementById('active-count').textContent = servers.length;
                                
                                const list = document.getElementById('server-list');
                                if (servers.length === 0) {
                                    list.innerHTML = '<div class="empty-list">No active servers</div>';
                                } else {
                                    list.innerHTML = servers.map(addr => `
                                        <div class="status-item">
                                            <span class="value">${addr}</span>
                                            <button class="secondary danger" style="padding: 4px 8px; font-size: 0.8em;" onclick="stopServer('${addr}')">Stop</button>
                                        </div>
                                    `).join('');
                                }
                            } else {
                                document.getElementById('connection-status').textContent = 'Error';
                                document.getElementById('connection-status').style.color = '#dc2626';
                            }
                        }

                        async function startServer() {
                            const port = parseInt(document.getElementById('port-input').value);
                            const type = document.getElementById('type-input').value;
                            
                            const res = await invokeNet('start_server', { port, type });
                            if (res.status === 'ok') {
                                alert('Server started!');
                                refreshStatus();
                            } else {
                                alert('Error: ' + res.message);
                            }
                        }

                        async function stopServer(addr) {
                            // Parse port from address (e.g., ":8080")
                            const port = parseInt(addr.replace(':', ''));
                            if (confirm(`Stop server on port ${port}?`)) {
                                const res = await invokeNet('stop_server', { port, type: 'tcp' });
                                if (res.status === 'ok') {
                                    refreshStatus();
                                } else {
                                    alert('Error: ' + res.message);
                                }
                            }
                        }

                        // Initial refresh
                        refreshStatus();
                        
                        // Refresh every 5 seconds
                        setInterval(refreshStatus, 5000);
                    </script>
                </body>
                </html>"##;

/// The page for a path that names no page, first part.
pub const NOT_FOUND_PAGE_0: &'static str = r##"<!DOCTYPE html>
            <html>
            <head>
                <title>404 Not Found</title>
                <meta charset="UTF-8">
                <style>
                    body { font-family: system-ui, -apple-system, sans-serif; height: 100vh; display: flex; align-items: center; justify-content: center; background: #f9fafb; color: #374151; margin: 0; }
                    .container { text-align: center; }
                    h1 { font-size: 4em; margin: 0; color: #1f2937; }
                    p { font-size: 1.2em; margin-top: 10px; }
                </style>
            </head>
            <body>
                <div class="container">
                    <h1>404</h1>
                    <p>Page not found: "##;

/// The page for a path that names no page, second part.
pub const NOT_FOUND_PAGE_1: &'static str = r##"</p>
                </div>
            </body>
            </html>"##;

/// One entry of the history page: when the address was visited, its title, and the address as a link.
pub open spec fn history_item_html(date: Seq<char>, title: Seq<char>, url: Seq<char>) -> Seq<char> {
    HISTORY_ITEM_0@ + date + HISTORY_ITEM_1@ + title + HISTORY_ITEM_2@ + url + HISTORY_ITEM_3@ + url + HISTORY_ITEM_4@
}

fn push_history_item(out: &mut String, date: &str, title: &str, url: &str)
    ensures
        final(out)@ == old(out)@ + history_item_html(date@, title@, url@),
{
    let mut part = String::from_str(HISTORY_ITEM_0);
    part.append(date);
    part.append(HISTORY_ITEM_1);
    part.append(title);
    part.append(HISTORY_ITEM_2);
    part.append(url);
    part.append(HISTORY_ITEM_3);
    part.append(url);
    part.append(HISTORY_ITEM_4);
    out.append(part.as_str());
}

/// The history page around its entries.
pub open spec fn history_page_html(style: Seq<char>, items: Seq<char>) -> Seq<char> {
    HISTORY_PAGE_0@ + style + HISTORY_PAGE_1@ + items + HISTORY_PAGE_2@
}

fn push_history_page(out: &mut String, style: &str, items: &str)
    ensures
        final(out)@ == old(out)@ + history_page_html(style@, items@),
{
    let mut part = String::from_str(HISTORY_PAGE_0);
    part.append(style);
    part.append(HISTORY_PAGE_1);
    part.append(items);
    part.append(HISTORY_PAGE_2);
    out.append(part.as_str());
}

/// One entry of the downloads page: the file, its address, how far it is, and the buttons that open it.
pub open spec fn download_item_html(color: Seq<char>, file_name: Seq<char>, url: Seq<char>, status: Seq<char>, path: Seq<char>, date: Seq<char>, escaped_path: Seq<char>) -> Seq<char> {
    DOWNLOAD_ITEM_0@ + color + DOWNLOAD_ITEM_1@ + file_name + DOWNLOAD_ITEM_2@ + url + DOWNLOAD_ITEM_3@ + url + DOWNLOAD_ITEM_4@ + status + DOWNLOAD_ITEM_5@ + path + DOWNLOAD_ITEM_6@ + date + DOWNLOAD_ITEM_7@ + escaped_path + DOWNLOAD_ITEM_8@ + escaped_path + DOWNLOAD_ITEM_9@
}

fn push_download_item(out: &mut String, color: &str, file_name: &str, url: &str, status: &str, path: &str, date: &str, escaped_path: &str)
    ensures
        final(out)@ == old(out)@ + download_item_html(color@, file_name@, url@, status@, path@, date@, escaped_path@),
{
    let mut part = String::from_str(DOWNLOAD_ITEM_0);
    part.append(color);
    part.append(DOWNLOAD_ITEM_1);
    part.append(file_name);
    part.append(DOWNLOAD_ITEM_2);
    part.append(url);
    part.append(DOWNLOAD_ITEM_3);
    part.append(url);
    part.append(DOWNLOAD_ITEM_4);
    part.append(status);
    part.append(DOWNLOAD_ITEM_5);
    part.append(path);
    part.append(DOWNLOAD_ITEM_6);
    part.append(date);
    part.append(DOWNLOAD_ITEM_7);
    part.append(escaped_path);
    part.append(DOWNLOAD_ITEM_8);
    part.append(escaped_path);
    part.append(DOWNLOAD_ITEM_9);
    out.append(part.as_str());
}

/// The downloads page around its entries.
pub open spec fn downloads_page_html(style: Seq<char>, items: Seq<char>) -> Seq<char> {
    DOWNLOADS_PAGE_0@ + style + DOWNLOADS_PAGE_1@ + items + DOWNLOADS_PAGE_2@
}

fn push_downloads_page(out: &mut String, style: &str, items: &str)
    ensures
        final(out)@ == old(out)@ + downloads_page_html(style@, items@),
{
    let mut part = String::from_str(DOWNLOADS_PAGE_0);
    part.append(style);
    part.append(DOWNLOADS_PAGE_1);
    part.append(items);
    part.append(DOWNLOADS_PAGE_2);
    out.append(part.as_str());
}

/// One entry of the favorites page: the title, the address as a link, and the button that removes it.
pub open spec fn favorite_item_html(title: Seq<char>, url: Seq<char>) -> Seq<char> {
    FAVORITE_ITEM_0@ + title + FAVORITE_ITEM_1@ + url + FAVORITE_ITEM_2@ + url + FAVORITE_ITEM_3@ + url + FAVORITE_ITEM_4@
}

fn push_favorite_item(out: &mut String, title: &str, url: &str)
    ensures
        final(out)@ == old(out)@ + favorite_item_html(title@, url@),
{
    let mut part = String::from_str(FAVORITE_ITEM_0);
    part.append(title);
    part.append(FAVORITE_ITEM_1);
    part.append(url);
    part.append(FAVORITE_ITEM_2);
    part.append(url);
    part.append(FAVORITE_ITEM_3);
    part.append(url);
    part.append(FAVORITE_ITEM_4);
    out.append(part.as_str());
}

/// The favorites page around its entries.
pub open spec fn favorites_page_html(style: Seq<char>, items: Seq<char>) -> Seq<char> {
    FAVORITES_PAGE_0@ + style + FAVORITES_PAGE_1@ + items + FAVORITES_PAGE_2@
}

fn push_favorites_page(out: &mut String, style: &str, items: &str)
    ensures
        final(out)@ == old(out)@ + favorites_page_html(style@, items@),
{
    let mut part = String::from_str(FAVORITES_PAGE_0);
    part.append(style);
    part.append(FAVORITES_PAGE_1);
    part.append(items);
    part.append(FAVORITES_PAGE_2);
    out.append(part.as_str());
}

/// The store page with its style.
pub open spec fn store_page_html(style: Seq<char>) -> Seq<char> {
    STORE_PAGE_0@ + style + STORE_PAGE_1@
}

fn push_store_page(out: &mut String, style: &str)
    ensures
        final(out)@ == old(out)@ + store_page_html(style@),
{
    let mut part = String::from_str(STORE_PAGE_0);
    part.append(style);
    part.append(STORE_PAGE_1);
    out.append(part.as_str());
}

/// The settings page with the homepage, the marks of the chosen search engine and theme, the accent colour and the marks of the two switches.
pub open spec fn settings_form_html(homepage: Seq<char>, google: Seq<char>, bing: Seq<char>, duckduckgo: Seq<char>, dark: Seq<char>, light: Seq<char>, system: Seq<char>, accent_color: Seq<char>, vertical_tabs: Seq<char>, rounded_corners: Seq<char>) -> Seq<char> {
    SETTINGS_PAGE_0@ + homepage + SETTINGS_PAGE_1@ + google + SETTINGS_PAGE_2@ + bing + SETTINGS_PAGE_3@ + duckduckgo + SETTINGS_PAGE_4@ + dark + SETTINGS_PAGE_5@ + light + SETTINGS_PAGE_6@ + system + SETTINGS_PAGE_7@ + accent_color + SETTINGS_PAGE_8@ + vertical_tabs + SETTINGS_PAGE_9@ + rounded_corners + SETTINGS_PAGE_10@
}

fn push_settings_form(out: &mut String, homepage: &str, google: &str, bing: &str, duckduckgo: &str, dark: &str, light: &str, system: &str, accent_color: &str, vertical_tabs: &str, rounded_corners: &str)
    ensures
        final(out)@ == old(out)@ + settings_form_html(homepage@, google@, bing@, duckduckgo@, dark@, light@, system@, accent_color@, vertical_tabs@, rounded_corners@),
{
    let mut part = String::from_str(SETTINGS_PAGE_0);
    part.append(homepage);
    part.append(SETTINGS_PAGE_1);
    part.append(google);
    part.append(SETTINGS_PAGE_2);
    part.append(bing);
    part.append(SETTINGS_PAGE_3);
    part.append(duckduckgo);
    part.append(SETTINGS_PAGE_4);
    part.append(dark);
    part.append(SETTINGS_PAGE_5);
    part.append(light);
    part.append(SETTINGS_PAGE_6);
    part.append(system);
    part.append(SETTINGS_PAGE_7);
    part.append(accent_color);
    part.append(SETTINGS_PAGE_8);
    part.append(vertical_tabs);
    part.append(SETTINGS_PAGE_9);
    part.append(rounded_corners);
    part.append(SETTINGS_PAGE_10);
    out.append(part.as_str());
}

/// The page that says that `path` names no page.
pub open spec fn not_found_html(path: Seq<char>) -> Seq<char> {
    NOT_FOUND_PAGE_0@ + path + NOT_FOUND_PAGE_1@
}

fn push_not_found(out: &mut String, path: &str)
    ensures
        final(out)@ == old(out)@ + not_found_html(path@),
{
    let mut part = String::from_str(NOT_FOUND_PAGE_0);
    part.append(path);
    part.append(NOT_FOUND_PAGE_1);
    out.append(part.as_str());
}


/// `items`, or `empty` where there are none.
pub open spec fn items_or(items: Seq<char>, empty: Seq<char>) -> Seq<char> {
    if items.len() == 0 {
        empty
    } else {
        items
    }
}

/// One visit, as the history page shows it.
#[derive(Debug, PartialEq, Eq)]
pub struct HistoryRow {
    /// When the address was last visited, written out.
    pub date: String,
    pub title: String,
    pub url: String,
}

/// A [`HistoryRow`] over sequences of characters.
pub struct HistoryRowModel {
    pub date: Seq<char>,
    pub title: Seq<char>,
    pub url: Seq<char>,
}

impl View for HistoryRow {
    type V = HistoryRowModel;

    open spec fn view(&self) -> HistoryRowModel {
        HistoryRowModel { date: self.date@, title: self.title@, url: self.url@ }
    }
}

/// The entries of the history page, in the order of the rows.
pub open spec fn history_items(rows: Seq<HistoryRowModel>) -> Seq<char>
    decreases rows.len(),
{
    if rows.len() == 0 {
        Seq::empty()
    } else {
        history_items(rows.drop_last()) + history_item_html(
            rows.last().date,
            rows.last().title,
            rows.last().url,
        )
    }
}

/// The history page for the given visits.
pub open spec fn history_page_of(rows: Seq<HistoryRowModel>) -> Seq<char> {
    history_page_html(PAGE_STYLE@, items_or(history_items(rows), HISTORY_EMPTY@))
}

/// Renders the history page.
pub fn history_page(rows: &Vec<HistoryRow>) -> (page: String)
    ensures
        page@ == history_page_of(rows@.map_values(|r: HistoryRow| r@)),
{
    let ghost model = rows@.map_values(|r: HistoryRow| r@);
    let mut items = String::new();
    let mut i: usize = 0;
    proof {
        assert(model.take(0) =~= Seq::<HistoryRowModel>::empty());
    }
    while i < rows.len()
        invariant
            i <= rows.len(),
            model == rows@.map_values(|r: HistoryRow| r@),
            items@ == history_items(model.take(i as int)),
        decreases rows.len() - i,
    {
        let row = &rows[i];
        proof {
            assert(model.take(i + 1).drop_last() =~= model.take(i as int));
            assert(model.take(i + 1).last() == row@);
        }
        push_history_item(&mut items, row.date.as_str(), row.title.as_str(), row.url.as_str());
        i += 1;
    }
    assert(model.take(rows.len() as int) =~= model);
    if items.as_str().is_empty() {
        items = String::from_str(HISTORY_EMPTY);
    }
    let mut page = String::new();
    push_history_page(&mut page, PAGE_STYLE, items.as_str());
    assert(page@ =~= history_page_html(PAGE_STYLE@, items@));
    page
}

/// One download, as the downloads page shows it.
#[derive(Debug, PartialEq, Eq)]
pub struct DownloadRow {
    pub item: DownloadItem,
    /// When the download was added, written out. It is shown for a download
    /// that knows when it was added.
    pub date: String,
}

/// A [`DownloadRow`] over sequences of characters.
pub struct DownloadRowModel {
    pub item: DownloadItemModel,
    pub date: Seq<char>,
}

impl View for DownloadRow {
    type V = DownloadRowModel;

    open spec fn view(&self) -> DownloadRowModel {
        DownloadRowModel { item: self.item@, date: self.date@ }
    }
}

/// One entry of the downloads page. A download that is completed is green
/// and says so; every other one is orange and counts as running. The path
/// goes into the buttons with its backslashes doubled.
pub open spec fn download_row_html(row: DownloadRowModel) -> Seq<char> {
    let finished = row.item.status == "completed"@;
    download_item_html(
        if finished {
            "#00E676"@
        } else {
            "#FFAB40"@
        },
        row.item.file_name,
        row.item.url,
        if finished {
            "Completed"@
        } else {
            "Downloading..."@
        },
        row.item.path,
        if row.item.added_at > 0 {
            row.date
        } else {
            Seq::<char>::empty()
        },
        replaced(row.item.path, "\\"@, "\\\\"@),
    )
}

/// The entries of the downloads page, the last row first.
pub open spec fn download_items(rows: Seq<DownloadRowModel>) -> Seq<char>
    decreases rows.len(),
{
    if rows.len() == 0 {
        Seq::empty()
    } else {
        download_items(rows.drop_first()) + download_row_html(rows.first())
    }
}

/// The downloads page for the given downloads.
pub open spec fn downloads_page_of(rows: Seq<DownloadRowModel>) -> Seq<char> {
    downloads_page_html(PAGE_STYLE@, items_or(download_items(rows), DOWNLOADS_EMPTY@))
}

/// Renders the downloads page.
pub fn downloads_page(rows: &Vec<DownloadRow>) -> (page: String)
    ensures
        page@ == downloads_page_of(rows@.map_values(|r: DownloadRow| r@)),
{
    let ghost model = rows@.map_values(|r: DownloadRow| r@);
    let completed = String::from_str("completed");
    let mut items = String::new();
    let mut i: usize = rows.len();
    proof {
        assert(model.skip(i as int) =~= Seq::<DownloadRowModel>::empty());
    }
    while i > 0
        invariant
            i <= rows.len(),
            completed@ == "completed"@,
            model == rows@.map_values(|r: DownloadRow| r@),
            items@ == download_items(model.skip(i as int)),
        decreases i,
    {
        i -= 1;
        let row = &rows[i];
        proof {
            assert(model.skip(i as int).drop_first() =~= model.skip(i + 1));
            assert(model.skip(i as int).first() == row@);
        }
        let finished = row.item.status == completed;
        let escaped = string_of(
            &replace_all(&chars_of(row.item.path.as_str()), &chars_of("\\"), &chars_of("\\\\")),
        );
        push_download_item(
            &mut items,
            if finished {
                "#00E676"
            } else {
                "#FFAB40"
            },
            row.item.file_name.as_str(),
            row.item.url.as_str(),
            if finished {
                "Completed"
            } else {
                "Downloading..."
            },
            row.item.path.as_str(),
            if row.item.added_at > 0 {
                row.date.as_str()
            } else {
                ""
            },
            escaped.as_str(),
        );
        proof {
            reveal_strlit("");
            assert(""@ =~= Seq::<char>::empty());
        }
    }
    assert(model.skip(0) =~= model);
    if items.as_str().is_empty() {
        items = String::from_str(DOWNLOADS_EMPTY);
    }
    let mut page = String::new();
    push_downloads_page(&mut page, PAGE_STYLE, items.as_str());
    assert(page@ =~= downloads_page_html(PAGE_STYLE@, items@));
    page
}

/// The entries of the favorites page, in the order of the favorites.
pub open spec fn favorite_items(favorites: Seq<FavoriteItemModel>) -> Seq<char>
    decreases favorites.len(),
{
    if favorites.len() == 0 {
        Seq::empty()
    } else {
        favorite_items(favorites.drop_last()) + favorite_item_html(
            favorites.last().title,
            favorites.last().url,
        )
    }
}

/// The favorites page for the given favorites.
pub open spec fn favorites_page_of(favorites: Seq<FavoriteItemModel>) -> Seq<char> {
    favorites_page_html(PAGE_STYLE@, items_or(favorite_items(favorites), FAVORITES_EMPTY@))
}

/// Renders the favorites page.
pub fn favorites_page(favorites: &Vec<FavoriteItem>) -> (page: String)
    ensures
        page@ == favorites_page_of(favorites@.map_values(|f: FavoriteItem| f@)),
{
    let ghost model = favorites@.map_values(|f: FavoriteItem| f@);
    let mut items = String::new();
    let mut i: usize = 0;
    proof {
        assert(model.take(0) =~= Seq::<FavoriteItemModel>::empty());
    }
    while i < favorites.len()
        invariant
            i <= favorites.len(),
            model == favorites@.map_values(|f: FavoriteItem| f@),
            items@ == favorite_items(model.take(i as int)),
        decreases favorites.len() - i,
    {
        let favorite = &favorites[i];
        proof {
            assert(model.take(i + 1).drop_last() =~= model.take(i as int));
            assert(model.take(i + 1).last() == favorite@);
        }
        push_favorite_item(&mut items, favorite.title.as_str(), favorite.url.as_str());
        i += 1;
    }
    assert(model.take(favorites.len() as int) =~= model);
    if items.as_str().is_empty() {
        items = String::from_str(FAVORITES_EMPTY);
    }
    let mut page = String::new();
    push_favorites_page(&mut page, PAGE_STYLE, items.as_str());
    assert(page@ =~= favorites_page_html(PAGE_STYLE@, items@));
    page
}

/// Renders the store page.
pub fn store_page() -> (page: String)
    ensures
        page@ == store_page_html(STORE_STYLE@),
{
    let mut page = String::new();
    push_store_page(&mut page, STORE_STYLE);
    assert(page@ =~= store_page_html(STORE_STYLE@));
    page
}

/// `word` where `on` holds, and nothing otherwise.
pub open spec fn mark(on: bool, word: Seq<char>) -> Seq<char> {
    if on {
        word
    } else {
        Seq::empty()
    }
}

/// The settings page for the given settings: the search engine and the theme
/// that are chosen are marked `selected`, and the switches that are on are
/// marked `checked`.
pub open spec fn settings_page_of(settings: AppSettingsModel) -> Seq<char> {
    settings_form_html(
        settings.homepage,
        mark(settings.search_engine == "google"@, "selected"@),
        mark(settings.search_engine == "bing"@, "selected"@),
        mark(settings.search_engine == "duckduckgo"@, "selected"@),
        mark(settings.theme == "dark"@, "selected"@),
        mark(settings.theme == "light"@, "selected"@),
        mark(settings.theme == "system"@, "selected"@),
        settings.accent_color,
        mark(settings.vertical_tabs, "checked"@),
        mark(settings.rounded_corners, "checked"@),
    )
}

fn mark_of(on: bool, word: &'static str) -> (text: &'static str)
    ensures
        text@ == mark(on, word@),
{
    if on {
        word
    } else {
        proof {
            reveal_strlit("");
            assert(""@ =~= Seq::<char>::empty());
        }
        ""
    }
}

fn is_text(value: &String, word: &str) -> (same: bool)
    ensures
        same == (value@ == word@),
{
    let other = word.to_owned();
    *value == other
}

/// Renders the settings page.
pub fn settings_page(settings: &AppSettings) -> (page: String)
    ensures
        page@ == settings_page_of(settings@),
{
    let mut page = String::new();
    push_settings_form(
        &mut page,
        settings.homepage.as_str(),
        mark_of(is_text(&settings.search_engine, "google"), "selected"),
        mark_of(is_text(&settings.search_engine, "bing"), "selected"),
        mark_of(is_text(&settings.search_engine, "duckduckgo"), "selected"),
        mark_of(is_text(&settings.theme, "dark"), "selected"),
        mark_of(is_text(&settings.theme, "light"), "selected"),
        mark_of(is_text(&settings.theme, "system"), "selected"),
        settings.accent_color.as_str(),
        mark_of(settings.vertical_tabs, "checked"),
        mark_of(settings.rounded_corners, "checked"),
    );
    assert(page@ =~= settings_page_of(settings@));
    page
}

/// Renders the page of the network manager.
pub fn network_page() -> (page: String)
    ensures
        page@ == NETWORK_PAGE@,
{
    String::from_str(NETWORK_PAGE)
}

/// Renders the page that says that `path` names no page.
pub fn not_found_page(path: &str) -> (page: String)
    ensures
        page@ == not_found_html(path@),
{
    let mut page = String::new();
    push_not_found(&mut page, path);
    assert(page@ =~= not_found_html(path@));
    page
}

/// The rows show the given visits, in their order, whatever the dates say.
pub open spec fn rows_show_visits(rows: Seq<HistoryRowModel>, items: Seq<VisitModel>) -> bool {
    &&& rows.len() == items.len()
    &&& forall|i: int|
        0 <= i < rows.len() ==> (#[trigger] rows[i]).title == items[i].title && rows[i].url
            == items[i].url
}

/// The rows of a list, each as its model.
pub open spec fn history_rows_model(rows: Seq<HistoryRow>) -> Seq<HistoryRowModel> {
    rows.map_values(|r: HistoryRow| r@)
}

/// The visits of a list, each as its model.
pub open spec fn visits_model(items: Seq<Visit>) -> Seq<VisitModel> {
    items.map_values(|v: Visit| v@)
}

/// Renders the history page for the given visits. Each row carries the time
/// of the last visit, written in the time zone of the machine, or `Unknown`
/// where that time cannot be written.
pub fn render_history(items: &Vec<Visit>) -> (page: String)
    ensures
        exists|rows: Seq<HistoryRowModel>|
            rows_show_visits(rows, visits_model(items@)) && page@ == #[trigger] history_page_of(
                rows,
            ),
{
    let mut rows: Vec<HistoryRow> = Vec::new();
    let mut i: usize = 0;
    while i < items.len()
        invariant
            i <= items.len(),
            rows@.len() == i,
            forall|k: int|
                0 <= k < i ==> (#[trigger] rows@[k]).title@ == items@[k].title@ && rows@[k].url@
                    == items@[k].url@,
        decreases items.len() - i,
    {
        let item = &items[i];
        let date = match local_date(item.last_visit) {
            Some(date) => date,
            None => String::from_str("Unknown"),
        };
        rows.push(HistoryRow { date, title: item.title.clone(), url: item.url.clone() });
        i += 1;
    }
    let page = history_page(&rows);
    proof {
        let shown = history_rows_model(rows@);
        assert(rows_show_visits(shown, visits_model(items@)));
        assert(page@ == history_page_of(shown));
    }
    page
}

/// The rows show the given downloads, in their order, whatever the dates say.
pub open spec fn rows_show_downloads(
    rows: Seq<DownloadRowModel>,
    items: Seq<DownloadItemModel>,
) -> bool {
    &&& rows.len() == items.len()
    &&& forall|i: int| 0 <= i < rows.len() ==> (#[trigger] rows[i]).item == items[i]
}

/// The rows of a list, each as its model.
pub open spec fn download_rows_model(rows: Seq<DownloadRow>) -> Seq<DownloadRowModel> {
    rows.map_values(|r: DownloadRow| r@)
}

/// The downloads of a list, each as its model.
pub open spec fn downloads_model(items: Seq<DownloadItem>) -> Seq<DownloadItemModel> {
    items.map_values(|d: DownloadItem| d@)
}

/// Renders the downloads page for the given downloads. Each row carries the
/// time at which the download was added, written in the time zone of the
/// machine, or nothing where that time cannot be written.
pub fn render_downloads(items: &Vec<DownloadItem>) -> (page: String)
    ensures
        exists|rows: Seq<DownloadRowModel>|
            rows_show_downloads(rows, downloads_model(items@)) && page@
                == #[trigger] downloads_page_of(rows),
{
    let mut rows: Vec<DownloadRow> = Vec::new();
    let mut i: usize = 0;
    while i < items.len()
        invariant
            i <= items.len(),
            rows@.len() == i,
            forall|k: int| 0 <= k < i ==> (#[trigger] rows@[k]).item@ == items@[k]@,
        decreases items.len() - i,
    {
        let item = &items[i];
        let date = match local_date(item.added_at) {
            Some(date) => date,
            None => String::new(),
        };
        rows.push(DownloadRow { item: item.clone(), date });
        i += 1;
    }
    let page = downloads_page(&rows);
    proof {
        let shown = download_rows_model(rows@);
        assert(rows_show_downloads(shown, downloads_model(items@)));
        assert(page@ == downloads_page_of(shown));
    }
    page
}

} // verus!
