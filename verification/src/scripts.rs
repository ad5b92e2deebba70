//! The scripts that are put into every page before it loads.
//!
//! They are kept as text. Two of them are made for one surface each: its
//! label and the key that the host layer accepts messages under are written
//! into them.

use vstd::prelude::*;
use vstd::string::StringExecFns;

verus! {

/// The script that hides advertising and frees a page that an overlay has
/// locked.
pub const STEALTH_SCRIPT: &'static str = r##"
    (function() {
        let host = window.location.hostname;
        
        // Try to get parent host if current host is empty (e.g. about:blank iframe)
        try {
            if ((!host || host === '') && window.parent && window.parent.location && window.parent.location.hostname) {
                host = window.parent.location.hostname;
            }
        } catch(e) {
            // Access denied to parent (cross-origin)
        }
        
        console.log("Lumina Stealth Protocol: Activated on " + host);

        // 0. Monkey-Patch IntersectionObserver to prevent ad script crashes
        const originalObserve = IntersectionObserver.prototype.observe;
        IntersectionObserver.prototype.observe = function(target) {
            if (!target || !(target instanceof Element)) {
                // Silently ignore invalid targets (likely removed ads)
                return;
            }
            return originalObserve.apply(this, arguments);
        };

        // 0.1 Monkey-Patch XHR to fix Transfermarkt malformed URLs
        const originalOpen = XMLHttpRequest.prototype.open;
        XMLHttpRequest.prototype.open = function(method, url, ...args) {
            if (typeof url === 'string' && (window.location.hostname.includes('transfermarkt') || window.location.hostname.includes('mackolik'))) {
                 // Remove spaces (%20) from URL path which break AJAX calls
                 if (url.includes('%20') || url.includes(' ')) {
                     const cleanUrl = url.replace(/%20/g, '').replace(/\s/g, '');
                     console.log("Lumina Fix: Corrected malformed URL", url, "->", cleanUrl);
                     url = cleanUrl;
                 }
            }
            return originalOpen.call(this, method, url, ...args);
        };

        const isFriendly = host.includes('google.com') || host.includes('gemini') || host.includes('youtube.com') || host.includes('transfermarkt') || host.includes('cdn.privacy-mgmt.com') || host.includes('consensu') || host.includes('cmp') || host.includes('quantcast');

        // Force remove aria-hidden from body to prevent accessibility lock
        if (isFriendly) {
            const ariaObserver = new MutationObserver((mutations) => {
                mutations.forEach((mutation) => {
                    if (mutation.type === 'attributes' && mutation.attributeName === 'aria-hidden') {
                        if (document.body.getAttribute('aria-hidden') === 'true') {
                            document.body.removeAttribute('aria-hidden');
                        }
                    }
                });
            });
            if (document.body) {
                ariaObserver.observe(document.body, { attributes: true });
                document.body.removeAttribute('aria-hidden');
            } else {
                document.addEventListener('DOMContentLoaded', () => {
                    ariaObserver.observe(document.body, { attributes: true });
                    document.body.removeAttribute('aria-hidden');
                });
            }
        }

        // 1. CSS Injection Strategy
        // Split into "Core/High-Confidence" (Always Safe) and "Aggressive" (Skip on Friendly)
        
        const coreAdStyles = `
            /* High-Confidence Ad Patterns - Safe to block everywhere */
            iframe[src*="ads"], iframe[id*="google_ads"], iframe[src*="doubleclick"], 
            iframe[src*="amazon-adsystem"], iframe[src*="adnxs"], iframe[src*="teads"],
            
            /* Google & Networks */
            ins.adsbygoogle, div[id^="google_ads_"],
            
            /* Native Ad Widgets */
            div[id*="taboola"], div[class*="taboola"],
            div[id*="outbrain"], div[class*="outbrain"],
            
            /* Specific Ad Iframes */
            iframe[title*="Advertisement"], iframe[title*="reklam"]
            
            { display: none !important; visibility: hidden !important; height: 0 !important; width: 0 !important; pointer-events: none !important; overflow: hidden !important; }
        `;

        const aggressiveAdStyles = `
            /* Common Ad Containers - Risk of False Positives */
            div[class*="ad-"], div[id*="ad-"],
            div[class*="ads-"], div[id*="ads-"],
            div[class*="sponsor"], div[id*="sponsor"],
            div[class*="banner"], div[id*="banner"],
            
            /* Overlays & Popups - Can kill Login Modals */
            div[class*="popup"][class*="ad"], div[class*="modal"][class*="ad"],
            div[id*="popup"][id*="ad"], div[id*="modal"][id*="ad"],
            
            /* Video Ads */
            div[class*="video-ad"], .ad-showing
            
            { display: none !important; visibility: hidden !important; height: 0 !important; width: 0 !important; pointer-events: none !important; overflow: hidden !important; }
        `;
        
        function injectCSS(cssContent) {
            const style = document.createElement('style');
            style.textContent = cssContent;
            const head = document.head || document.documentElement;
            if (head) head.appendChild(style);
        }
        
        function initCSS() {
            // Always inject Core Styles
            injectCSS(coreAdStyles);
            
            // Only inject Aggressive Styles if NOT Friendly
            if (!isFriendly) {
                injectCSS(aggressiveAdStyles);
            } else {
                console.log("Lumina Stealth: Friendly domain (" + host + ") - Skipping aggressive CSS.");
            }
        }
        
        if (document.readyState === 'loading') {
            document.addEventListener('DOMContentLoaded', initCSS);
        } else {
            initCSS();
        }

        // 2. Global Ad-Intervention (Overlay Remover)
        function killAdOverlays() {
            // Safety: On Friendly domains, we ONLY unlock scroll and kill specific IFRAMES.
            // We do NOT kill divs/overlays to avoid breaking login/navigation.
            
            if (isFriendly) {
                // FORCE SCROLL UNLOCK - Fixes "Transfermarkt scroll lock"
                if (document.body) {
                    document.body.style.setProperty('overflow', 'auto', 'important');
                    document.body.style.setProperty('overflow-x', 'auto', 'important');
                    document.body.style.setProperty('overflow-y', 'auto', 'important');
                }
                if (document.documentElement) {
                    document.documentElement.style.setProperty('overflow', 'auto', 'important');
                    document.documentElement.style.setProperty('overflow-x', 'auto', 'important');
                    document.documentElement.style.setProperty('overflow-y', 'auto', 'important');
                }
                
                // Kill only ad iframes (which might be transparent overlays)
                document.querySelectorAll('iframe').forEach(el => {
                     const src = (el.src || '').toLowerCase();
                     const id = (el.id || '').toLowerCase();
                     if (src.includes('ads') || src.includes('doubleclick') || id.includes('google_ads') || src.includes('teads')) {
                         console.log("Lumina Friendly-Kill: Removing ad iframe ->", el);
                         el.remove();
                     }
                });
                return;
            }

            const keywords = ['modal', 'popup', 'overlay', 'interstitial', 'ads', 'promo', 'subscribe', 'sign-up'];
            // Select potential overlays
            const elements = document.querySelectorAll('div, section, aside, iframe');
            
            elements.forEach(el => {
                const id = (el.id || '').toLowerCase();
                const cls = (el.className || '').toString().toLowerCase();
                // Safety check for null style (e.g. detached elements)
                let style;
                try {
                     style = window.getComputedStyle(el);
                } catch(e) { return; }
                
                if (!style) return;
                
                // Check for fixed/absolute positioning + high z-index
                const isFloating = style.position === 'fixed' || style.position === 'absolute';
                const isHighZ = parseInt(style.zIndex) > 50;
                
                // Check for keywords
                const hasKeyword = keywords.some(k => id.includes(k) || cls.includes(k));
                
                if (isFloating && isHighZ && hasKeyword) {
                        console.log("Lumina Ad-Intervention: Killing overlay ->", el);
                        el.remove();
                        // Unlock scroll if blocked by overlay
                        if (document.body) document.body.style.overflow = 'auto';
                        if (document.documentElement) document.documentElement.style.overflow = 'auto';
                        
                        // Try to unlock parent scroll if in iframe
                        try {
                            if (window.parent && window.parent !== window) {
                                if (window.parent.document.body) window.parent.document.body.style.overflow = 'auto';
                                if (window.parent.document.documentElement) window.parent.document.documentElement.style.overflow = 'auto';
                            }
                        } catch(e) {}
                }
                
                // Also kill iframes that are likely ads but missed by CSS
                if (el.tagName === 'IFRAME' && (id.includes('google') || cls.includes('ads'))) {
                    el.remove();
                }
            });
        }

        // 3. Event Listeners (ESC & Periodic)
        document.addEventListener('keydown', (e) => {
            if (e.key === 'Escape') {
                console.log("Lumina: ESC pressed. Triggering Ad-Intervention & Stop.");
                killAdOverlays();
                window.stop(); // Stop infinite scripts
            }
        });

        // Run periodically to catch delayed popups
        setTimeout(killAdOverlays, 2000);
        setTimeout(killAdOverlays, 5000);
        setTimeout(killAdOverlays, 10000);
        // More frequent checks for scroll lock on Friendly domains
        if (isFriendly) {
             setInterval(() => {
                 // Check if body exists before accessing style
                 if (document.body) {
                     const s = window.getComputedStyle(document.body);
                     if (s.overflow === 'hidden' || s.overflowX === 'hidden' || s.overflowY === 'hidden') {
                        document.body.style.setProperty('overflow', 'auto', 'important');
                        document.body.style.setProperty('overflow-x', 'auto', 'important');
                        document.body.style.setProperty('overflow-y', 'auto', 'important');
                     }
                     if (s.position === 'fixed') {
                        document.body.style.setProperty('position', 'static', 'important');
                     }
                 }
                 // Check if documentElement exists before accessing style
                 if (document.documentElement) {
                     const s = window.getComputedStyle(document.documentElement);
                     if (s.overflow === 'hidden' || s.overflowX === 'hidden' || s.overflowY === 'hidden') {
                        document.documentElement.style.setProperty('overflow', 'auto', 'important');
                        document.documentElement.style.setProperty('overflow-x', 'auto', 'important');
                        document.documentElement.style.setProperty('overflow-y', 'auto', 'important');
                     }
                     if (s.position === 'fixed') {
                        document.documentElement.style.setProperty('position', 'static', 'important');
                     }
                 }
             }, 1000);
        }
        
    })();
    "##;

/// The script of a standalone window up to the label.
pub const PWA_SCRIPT_HEAD: &'static str = r##"
        (function() {
            window.__TAB_LABEL__ = ""##;

/// The script of a standalone window between the label and the key.
pub const PWA_SCRIPT_MIDDLE: &'static str = r##"";
            window.__TAURI_INVOKE_KEY__ = ""##;

/// The script of a standalone window after the key.
pub const PWA_SCRIPT_TAIL: &'static str = r##"";
            
            // Custom IPC for PWA windows
            function invoke(cmd, args) {
                // Reuse the same logic as create_tab
                if (window.__TAURI__ && window.__TAURI__.core) {
                    window.__TAURI__.core.invoke(cmd, args).catch(err => console.error("Tauri invoke failed:", err));
                    return;
                }
                
                if (typeof window.__IPC_COUNTER === 'undefined') window.__IPC_COUNTER = 0;
                window.__IPC_COUNTER = (window.__IPC_COUNTER + 1) % 4000000000;
                var callbackId = window.__IPC_COUNTER;
                var noOp = function(res) {};
                
                try {
                     if (window.__TAURI_INTERNALS__) {
                         if (!window.__TAURI_INTERNALS__.callbacks) window.__TAURI_INTERNALS__.callbacks = {};
                         window.__TAURI_INTERNALS__.callbacks[callbackId] = { resolve: noOp, reject: noOp };
                     }
                } catch(e) {}
                
                setTimeout(function() {
                    try {
                        if (window.__TAURI_INTERNALS__ && window.__TAURI_INTERNALS__.callbacks) {
                             delete window.__TAURI_INTERNALS__.callbacks[callbackId];
                        }
                    } catch(e) {}
                }, 60000);

                var msg = {
                    cmd: cmd,
                    callback: callbackId, 
                    error: callbackId,
                    payload: args,
                    __TAURI_INVOKE_KEY__: window.__TAURI_INVOKE_KEY__
                };
                
                if (window.chrome && window.chrome.webview) {
                    window.chrome.webview.postMessage(msg);
                } else if (window.webkit && window.webkit.messageHandlers && window.webkit.messageHandlers.ipc) {
                    window.webkit.messageHandlers.ipc.postMessage(msg);
                }
            }

            // Override window.open
            window.open = function(url, target, features) {
                if (url) {
                    // Call create_tab directly on the main window via our fixed command
                    invoke('create_tab', { label: 'new-tab-' + Date.now() + '-' + Math.floor(Math.random() * 1000), url: url });
                }
                return null;
            };
            
            // Handle _blank links
            document.addEventListener('click', (e) => {
                let target = e.target;
                while(target && target.tagName !== 'A') target = target.parentElement;
                if (target && target.tagName === 'A' && target.target === '_blank') {
                    e.preventDefault();
                    invoke('create_tab', { label: 'new-tab-' + Date.now() + '-' + Math.floor(Math.random() * 1000), url: target.href });
                }
            }, true);

            document.addEventListener('auxclick', (e) => {
                if (e.button === 1) {
                    let target = e.target;
                    while(target && target.tagName !== 'A') target = target.parentElement;
                    if (target && target.tagName === 'A') {
                        e.preventDefault();
                        invoke('create_tab', { label: 'new-tab-' + Date.now() + '-' + Math.floor(Math.random() * 1000), url: target.href });
                    }
                }
            }, true);

            // Context Menu Override
            document.addEventListener('contextmenu', (e) => {
                let target = e.target;
                let linkUrl = null;
                while(target && target.tagName !== 'A') target = target.parentElement;
                if (target && target.tagName === 'A' && target.href) {
                    linkUrl = target.href;
                }

                if (linkUrl) {
                    e.preventDefault();
                    e.stopPropagation(); 
                    
                    const existing = document.getElementById('lumina-context-menu');
                    if (existing) existing.remove();

                    const menu = document.createElement('div');
                    menu.id = 'lumina-context-menu';
                    menu.style.position = 'fixed';
                    menu.style.top = e.clientY + 'px';
                    menu.style.left = e.clientX + 'px';
                    menu.style.zIndex = '2147483647'; 
                    menu.style.background = '#292a2d';
                    menu.style.border = '1px solid #3c4043';
                    menu.style.borderRadius = '4px';
                    menu.style.padding = '4px 0';
                    menu.style.color = '#e8eaed';
                    menu.style.fontFamily = 'system-ui, sans-serif';
                    menu.style.fontSize = '13px';
                    menu.style.userSelect = 'none';

                    const createItem = (text, onClick) => {
                        const item = document.createElement('div');
                        item.innerText = text;
                        item.style.padding = '6px 12px';
                        item.style.cursor = 'pointer';
                        item.onmouseenter = () => item.style.background = '#3c4043';
                        item.onmouseleave = () => item.style.background = 'transparent';
                        item.onclick = (ev) => {
                            ev.stopPropagation(); 
                            onClick();
                            menu.remove();
                        };
                        return item;
                    };

                    menu.appendChild(createItem('Open Link in New Tab', () => {
                         invoke('create_tab', { label: 'tab-' + Date.now() + '-' + Math.floor(Math.random() * 1000), url: linkUrl });
                    }));
                    
                    // Add copy link
                    menu.appendChild(createItem('Copy Link Address', () => {
                         navigator.clipboard.writeText(linkUrl);
                    }));
                    
                    document.body.appendChild(menu);
                    
                    const closeMenu = () => {
                        menu.remove();
                        document.removeEventListener('click', closeMenu);
                        document.removeEventListener('contextmenu', closeMenu);
                    };
                    setTimeout(() => {
                        document.addEventListener('click', closeMenu);
                        document.addEventListener('contextmenu', (e) => {
                             if (e.target.closest('#lumina-context-menu')) return;
                             closeMenu();
                        });
                    }, 100);
                }
            }, true);

        })();
    "##;

/// The script of a tab up to the label.
pub const TAB_SCRIPT_HEAD: &'static str = r##"
         (function() {
             // Prevent execution in subframes (ads, tracking pixels) to stop IPC errors
             try {
                if (window.self !== window.top) return;
             } catch(e) { return; }

             // Block execution on known ad domains (even if top-level)
             try {
                 let host = window.location.hostname;
                 if (host.includes('doubleclick') || host.includes('googlesyndication') || host.includes('adnxs') || host.includes('teads')) return;
             } catch(e) {}

             window.__TAB_LABEL__ = ""##;

/// The script of a tab between the label and the key.
pub const TAB_SCRIPT_MIDDLE: &'static str = r##"";
             window.__TAURI_INVOKE_KEY__ = ""##;

/// The script of a tab after the key.
pub const TAB_SCRIPT_TAIL: &'static str = r##"";
            
            // Suppress Tauri callback errors caused by our manual IPC
            const originalConsoleError = console.error;
            const originalConsoleWarn = console.warn;
            
            function isTauriCallbackError(args) {
                if (args.length > 0 && typeof args[0] === 'string') {
                    return args[0].includes("Couldn't find callback id") || 
                           args[0].includes("[TAURI] Couldn't find callback id");
                }
                return false;
            }

            console.error = function(...args) {
                if (isTauriCallbackError(args)) return;
                originalConsoleError.apply(console, args);
            };
            
            console.warn = function(...args) {
                if (isTauriCallbackError(args)) return;
                originalConsoleWarn.apply(console, args);
            };

            // Custom IPC for our browser tabs via native postMessage
            // This bypasses CSP 'connect-src' and 'frame-src' restrictions.
            function invoke(cmd, args) {
                // Try Tauri v2 standard invoke first (if available and not blocked)
                if (window.__TAURI__ && window.__TAURI__.core) {
                    window.__TAURI__.core.invoke(cmd, args).catch(err => console.error("Tauri invoke failed:", err));
                    return;
                }
                
                // Use a static counter to ensure unique, valid u32 IDs
                if (typeof window.__IPC_COUNTER === 'undefined') {
                    window.__IPC_COUNTER = 0;
                }
                window.__IPC_COUNTER = (window.__IPC_COUNTER + 1) % 4000000000;
                var callbackId = window.__IPC_COUNTER;
                
                // Register dummy callback to silence "Couldn't find callback id" errors
                var noOp = function(res) {};
                
                try {
                     if (window.__TAURI_INTERNALS__) {
                         if (!window.__TAURI_INTERNALS__.callbacks) {
                             window.__TAURI_INTERNALS__.callbacks = {};
                         }
                         // Tauri v2 style
                         window.__TAURI_INTERNALS__.callbacks[callbackId] = {
                             resolve: noOp,
                             reject: noOp
                         };
                     }
                } catch(e) {}
                
                // Cleanup
                setTimeout(function() {
                    try {
                        if (window.__TAURI_INTERNALS__ && window.__TAURI_INTERNALS__.callbacks) {
                             delete window.__TAURI_INTERNALS__.callbacks[callbackId];
                        }
                    } catch(e) {}
                }, 60000); // 60s timeout

                var msg = {
                    cmd: cmd,
                    callback: callbackId, 
                    error: callbackId,
                    payload: args,
                    __TAURI_INVOKE_KEY__: window.__TAURI_INVOKE_KEY__
                };
                
                if (window.chrome && window.chrome.webview) {
                    // WebView2 (Windows)
                    window.chrome.webview.postMessage(msg); // Send object directly for WebView2
                } else if (window.webkit && window.webkit.messageHandlers && window.webkit.messageHandlers.ipc) {
                    // WebKit (macOS / Linux)
                    window.webkit.messageHandlers.ipc.postMessage(msg);
                } else {
                    console.error("No native IPC found for " + cmd);
                }
            }

            // PWA Detection
            window.addEventListener('beforeinstallprompt', (e) => {
                // Prevent the mini-infobar from appearing on mobile
                e.preventDefault();
                // Stash the event so it can be triggered later.
                window.deferredPrompt = e;
                console.log("PWA beforeinstallprompt fired! Event stashed.");
                invoke('pwa_detected', { label: window.__TAB_LABEL__ });
            });
            
            window.addEventListener('appinstalled', () => {
                console.log('PWA was installed');
                window.deferredPrompt = null;
            });
            
            // Manual PWA Detection (Fallback)
            // Checks for manifest with display: standalone/minimal-ui
            async function checkManifest() {
                if (window.deferredPrompt) return; // Already detected
                
                var link = document.querySelector("link[rel='manifest']");
                if (link && link.href) {
                    // Try to fetch in browser first (shares session/cookies, bypasses Cloudflare)
                    try {
                        console.log("Fetching PWA manifest via JS: " + link.href);
                        let response = await fetch(link.href);
                        if (response.ok) {
                            let manifest = await response.json();
                            console.log("JS Manifest parsed:", manifest);
                            if (manifest.display && ['standalone', 'minimal-ui', 'fullscreen'].includes(manifest.display)) {
                                console.log("PWA detected via JS fetch!");
                                
                                // Extract best icon
                                let iconUrl = null;
                                if (manifest.icons && Array.isArray(manifest.icons)) {
                                    let maxArea = 0;
                                    for (let icon of manifest.icons) {
                                        if (icon.src && icon.sizes) {
                                            let sizes = icon.sizes.split(' ');
                                            for (let size of sizes) {
                                                if (size === 'any') continue;
                                                let parts = size.split('x');
                                                if (parts.length === 2) {
                                                    let w = parseInt(parts[0]);
                                                    let h = parseInt(parts[1]);
                                                    if (!isNaN(w) && !isNaN(h) && w * h > maxArea) {
                                                        maxArea = w * h;
                                                        iconUrl = icon.src;
                                                    }
                                                }
                                            }
                                        } else if (icon.src && !iconUrl) {
                                            // Fallback if no sizes
                                            iconUrl = icon.src;
                                        }
                                    }
                                    
                                    // Resolve relative URL
                                    if (iconUrl) {
                                        iconUrl = new URL(iconUrl, link.href).href;
                                    }
                                }

                                invoke('pwa_detected', { label: window.__TAB_LABEL__, iconUrl: iconUrl });
                                return;
                            }
                        }
                    } catch(e) {
                        console.error("Browser fetch failed, falling back to Rust:", e);
                    }

                    // Fallback to Rust (bypasses CORS/CSP if browser fetch failed)
                    invoke('check_pwa_manifest', { label: window.__TAB_LABEL__, url: link.href });
                }
            }
            
            // Run check on load and DOMContentLoaded, avoiding loops
            window.addEventListener('load', checkManifest);
            if (document.readyState === 'complete' || document.readyState === 'interactive') {
                 checkManifest();
            }

            function getFavicon() {
                let link = document.querySelector("link[rel*='icon']") || document.querySelector("link[rel='shortcut icon']");
                return link ? link.href : "";
            }

            function logVisit() {
                if (window.location.protocol.startsWith('http')) {
                     invoke('add_history_item', {
                         url: window.location.href,
                         title: document.title || window.location.href
                     });
                }
            }

            function updateInfo() {
                 let title = document.title;
                 let favicon = getFavicon();
                 invoke('update_tab_info', {
                     label: window.__TAB_LABEL__,
                     title: title,
                     favicon: favicon,
                     url: window.location.href
                 });
            }
            
            // Observer for head changes (title, favicon)
            function initObserver() {
                var target = document.head || document.querySelector('head') || document.documentElement;
                if (target) {
                    try {
                        new MutationObserver(updateInfo).observe(target, { subtree: true, childList: true, attributes: true });
                    } catch(e) {
                        console.error("MutationObserver init failed:", e);
                    }
                }
            }

            // Handle new tab requests
            window.open = function(url, target, features) {
                if (url) {
                    window.__TAURI__.event.emit('request-new-tab', { label: 'new-tab', url: url });
                }
                return null;
            };
            
            document.addEventListener('click', (e) => {
                let target = e.target;
                while(target && target.tagName !== 'A') target = target.parentElement;
                if (target && target.tagName === 'A' && target.target === '_blank') {
                    e.preventDefault();
                    window.__TAURI__.event.emit('request-new-tab', { label: 'new-tab', url: target.href });
                }
            }, true);

            document.addEventListener('auxclick', (e) => {
                if (e.button === 1) {
                    let target = e.target;
                    while(target && target.tagName !== 'A') target = target.parentElement;
                    if (target && target.tagName === 'A') {
                        e.preventDefault();
                        window.__TAURI__.event.emit('request-new-tab', { label: 'new-tab', url: target.href });
                    }
                }
            }, true);

            // Custom Context Menu
            document.addEventListener('contextmenu', (e) => {
                // Check if target is link
                let target = e.target;
                let linkUrl = null;
                while(target && target.tagName !== 'A') target = target.parentElement;
                if (target && target.tagName === 'A' && target.href) {
                    linkUrl = target.href;
                }

                if (linkUrl) {
                    e.preventDefault();
                    e.stopPropagation(); // Stop propagation immediately
                    
                    // Remove existing menu
                    const existing = document.getElementById('lumina-context-menu');
                    if (existing) existing.remove();

                    const menu = document.createElement('div');
                    menu.id = 'lumina-context-menu';
                    menu.style.position = 'fixed';
                    menu.style.top = e.clientY + 'px';
                    menu.style.left = e.clientX + 'px';
                    menu.style.zIndex = '2147483647'; // Max z-index
                    menu.style.background = '#292a2d';
                    menu.style.border = '1px solid #3c4043';
                    menu.style.borderRadius = '4px';
                    menu.style.padding = '4px 0';
                    menu.style.boxShadow = '0 2px 6px rgba(0,0,0,0.3)';
                    menu.style.minWidth = '150px';
                    menu.style.color = '#e8eaed';
                    menu.style.fontFamily = 'system-ui, -apple-system, sans-serif';
                    menu.style.fontSize = '13px';
                    menu.style.userSelect = 'none';

                    const createItem = (text, onClick) => {
                        const item = document.createElement('div');
                        item.innerText = text;
                        item.style.padding = '6px 12px';
                        item.style.cursor = 'pointer';
                        item.onmouseenter = () => item.style.background = '#3c4043';
                        item.onmouseleave = () => item.style.background = 'transparent';
                        item.onclick = (ev) => {
                            ev.stopPropagation(); 
                            onClick();
                            menu.remove();
                        };
                        return item;
                    };

                    menu.appendChild(createItem('Open Link in New Tab', () => {
                         let uniqueLabel = 'tab-' + Date.now() + '-' + Math.floor(Math.random() * 1000000);
                         invoke('create_tab', { label: uniqueLabel, url: linkUrl });
                    }));
                    
                    // Separator
                    const sep = document.createElement('div');
                    sep.style.height = '1px';
                    sep.style.background = '#3c4043';
                    sep.style.margin = '4px 0';
                    menu.appendChild(sep);

                    menu.appendChild(createItem('Back', () => window.history.back()));
                    menu.appendChild(createItem('Forward', () => window.history.forward()));
                    menu.appendChild(createItem('Reload', () => window.location.reload()));

                    document.body.appendChild(menu);
                    
                    // Close on click outside
                    const closeMenu = () => {
                        menu.remove();
                        document.removeEventListener('click', closeMenu);
                        document.removeEventListener('contextmenu', closeMenu);
                    };
                    // Delay slightly to avoid immediate trigger
                    setTimeout(() => {
                        document.addEventListener('click', closeMenu);
                        document.addEventListener('contextmenu', (e) => {
                             if (e.target.closest('#lumina-context-menu')) return;
                             closeMenu();
                        });
                    }, 100);
                }
            }, true); // Use Capture phase to preempt site scripts

            if (document.body || document.head || document.documentElement) {
                initObserver();
            } else {
                document.addEventListener('DOMContentLoaded', initObserver);
            }
            
            // Initial call
            if (document.readyState === 'complete' || document.readyState === 'interactive') {
                updateInfo();
                logVisit();
            } else {
                window.addEventListener('DOMContentLoaded', updateInfo);
                window.addEventListener('load', () => { updateInfo(); logVisit(); });
            }
        })();
    "##;

/// The script that hides advertising, as a string of its own.
pub fn get_lumina_stealth_script() -> (script: String)
    ensures
        script@ == STEALTH_SCRIPT@,
{
    String::from_str(STEALTH_SCRIPT)
}

/// The script of the standalone window `label`: it carries the label and the
/// key, sends new windows and links that ask for one to a new tab, and offers
/// the menu for links.
pub fn get_pwa_init_script(label: &str, invoke_key: &str) -> (script: String)
    ensures
        script@ == PWA_SCRIPT_HEAD@ + label@ + PWA_SCRIPT_MIDDLE@ + invoke_key@ + PWA_SCRIPT_TAIL@,
{
    let mut script = String::from_str(PWA_SCRIPT_HEAD);
    script.append(label);
    script.append(PWA_SCRIPT_MIDDLE);
    script.append(invoke_key);
    script.append(PWA_SCRIPT_TAIL);
    script
}

/// The script of the tab `label`: the script that hides advertising, a line
/// break, and the script that carries the label and the key and reports the
/// page's title, icon and visits.
pub fn get_tab_init_script(label: &str, invoke_key: &str) -> (script: String)
    ensures
        script@ == STEALTH_SCRIPT@ + "\n"@ + TAB_SCRIPT_HEAD@ + label@ + TAB_SCRIPT_MIDDLE@
            + invoke_key@ + TAB_SCRIPT_TAIL@,
{
    let mut script = String::from_str(STEALTH_SCRIPT);
    script.append("\n");
    script.append(TAB_SCRIPT_HEAD);
    script.append(label);
    script.append(TAB_SCRIPT_MIDDLE);
    script.append(invoke_key);
    script.append(TAB_SCRIPT_TAIL);
    script
}

/// The script that turns a page into its text alone, and turns it back when
/// it is run again.
pub const READER_MODE_SCRIPT: &'static str = r##"
            (function() {
                if (window.__readerModeActive) {
                    window.location.reload();
                    return;
                }

                function findContent() {
                    const selectors = ['article', 'main', '.content', '#content', '.post', '.entry', '.article', '#article'];
                    for (let sel of selectors) {
                        let el = document.querySelector(sel);
                        if (el && el.innerText.length > 200) return el;
                    }
                    
                    let divs = document.getElementsByTagName('div');
                    let bestDiv = null;
                    let maxP = 0;
                    for (let div of divs) {
                        let pCount = div.getElementsByTagName('p').length;
                        if (pCount > maxP) {
                            maxP = pCount;
                            bestDiv = div;
                        }
                    }
                    return bestDiv || document.body;
                }

                try {
                    const content = findContent().cloneNode(true);
                    
                    const style = `
                        body {
                            background-color: #f4ecd8 !important;
                            color: #333 !important;
                            font-family: Georgia, 'Times New Roman', serif !important;
                            font-size: 20px !important;
                            line-height: 1.6 !important;
                            max-width: 800px !important;
                            margin: 0 auto !important;
                            padding: 40px 20px !important;
                        }
                        img { max-width: 100%; height: auto; display: block; margin: 20px auto; }
                        a { color: #005a9c; text-decoration: underline; }
                        h1, h2, h3, h4 { font-family: Helvetica, Arial, sans-serif; color: #111; margin-top: 1.5em; }
                        p { margin-bottom: 1.5em; }
                        pre, code { background: rgba(0,0,0,0.05); padding: 2px 4px; border-radius: 3px; }
                        blockquote { border-left: 4px solid #ccc; padding-left: 16px; margin-left: 0; color: #555; font-style: italic; }
                        
                        /* Hide everything else */
                        nav, header, footer, aside, .sidebar, .menu, .ad, .ads, .advertisement, iframe, .popup, .modal { display: none !important; }
                    `;

                    document.head.innerHTML = '';
                    const styleEl = document.createElement('style');
                    styleEl.textContent = style;
                    document.head.appendChild(styleEl);

                    document.body.innerHTML = '';
                    document.body.appendChild(content);
                    window.__readerModeActive = true;
                    console.log("Reader mode activated");
                } catch(e) {
                    console.error("Reader mode failed:", e);
                }
            })();
        "##;

/// The script that takes floating overlays out of a page.
pub const CLEAN_PAGE_SCRIPT: &'static str = r##"
        (function() {
            // Domain Awareness for Clean Page
            const host = window.location.hostname;
            if (host.includes('google.com') || host.includes('gemini') || host.includes('youtube.com')) {
                 console.log("Lumina Clean Page: Friendly domain detected (" + host + "), aborting force clean.");
                 return;
            }

            const elements = document.querySelectorAll('div, iframe, section, aside, span, a, img, button');
            let count = 0;
            elements.forEach(el => {
                const style = window.getComputedStyle(el);
                if (style.position === 'fixed' || style.position === 'absolute') {
                    // Check if it's likely an overlay/ad (high z-index or full width/height)
                    if ((style.zIndex && parseInt(style.zIndex) > 10) || 
                        (el.offsetWidth > window.innerWidth * 0.9 && el.offsetHeight > window.innerHeight * 0.9)) {
                         el.remove();
                         count++;
                    }
                }
            });
            console.log("Lumina Clean Page: Removed " + count + " floating elements.");
        })();
    "##;

/// The script that offers a site for installation, up to the address of the
/// site's icon.
pub const PWA_INSTALL_HEAD: &'static str = r##"
            (async function() {
                var knownIconUrl = "##;

/// The script that offers a site for installation, after the address of the
/// site's icon.
pub const PWA_INSTALL_TAIL: &'static str = r##";
                if (window.deferredPrompt) {
                    console.log("Triggering PWA install prompt...");
                    window.deferredPrompt.prompt();
                    window.deferredPrompt.userChoice.then((choiceResult) => {
                        if (choiceResult.outcome === 'accepted') {
                            console.log('User accepted the install prompt');
                        } else {
                            console.log('User dismissed the install prompt');
                        }
                        window.deferredPrompt = null;
                    });
                } else {
                    console.warn("No deferredPrompt found, falling back to manual PWA window...");
                    var title = document.title || window.location.href;
                    
                    var faviconUrl = knownIconUrl;
                    if (!faviconUrl) {
                        var links = document.querySelectorAll("link[rel*='icon']");
                        if (links.length > 0) {
                            faviconUrl = links[0].href;
                        }
                    }

                    try {
                        var args = { url: window.location.href, title: title, faviconUrl: faviconUrl };
                        if (window.__TAURI__ && window.__TAURI__.core) {
                            await window.__TAURI__.core.invoke('open_pwa_window', args);
                        } else if (window.__TAURI__ && window.__TAURI__.invoke) {
                            await window.__TAURI__.invoke('open_pwa_window', args);
                        } else {
                             // Fallback to our custom invoke
                             if (typeof invoke === 'function') {
                                 invoke('open_pwa_window', args);
                             } else {
                                 console.error("No invoke mechanism found");
                             }
                        }
                    } catch(e) {
                        console.error("Failed to open PWA window:", e);
                    }
                }
            })();
        "##;

/// How the address of a site's icon is written into a script: between
/// apostrophes, or as `null` where there is none.
pub open spec fn icon_in_script(icon_url: Option<Seq<char>>) -> Seq<char> {
    match icon_url {
        Some(url) => "'"@ + url + "'"@,
        None => "null"@,
    }
}

/// The script that lets a page offer its site for installation. It carries
/// the address of the site's icon where one is known.
pub fn get_pwa_install_script(icon_url: Option<String>) -> (script: String)
    ensures
        script@ == PWA_INSTALL_HEAD@ + icon_in_script(crate::text::optional_text(icon_url))
            + PWA_INSTALL_TAIL@,
{
    let mut script = String::from_str(PWA_INSTALL_HEAD);
    let ghost head = script@;
    match icon_url {
        Some(url) => {
            script.append("'");
            script.append(url.as_str());
            script.append("'");
            assert(script@ =~= head + ("'"@ + url@ + "'"@));
        },
        None => {
            script.append("null");
        },
    }
    script.append(PWA_INSTALL_TAIL);
    script
}

} // verus!
