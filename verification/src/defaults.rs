//! The files that a new data directory begins with.

use vstd::prelude::*;

verus! {

/// The settings of a new user. They keep the memory of the editor small.
pub const DEFAULT_SETTINGS: &'static str = r#"{
    // ════════════════════════════════════════════════════════════════════
    // JogiCode Default Settings — Memory Optimized (<600MB target)
    // ════════════════════════════════════════════════════════════════════

    // ── MEMORY CEILING: V8 / Node.js heap limits ──
    // These are read by code-server's Node.js process to cap V8 heap.
    // 384MB heap + ~100MB native = ~500MB per extension host.
    "terminal.integrated.env.windows": {
        "NODE_OPTIONS": "--max-old-space-size=384"
    },

    // ── MEMORY: Editor & Text Buffer ──
    // Reduce undo stack and render buffer memory
    "editor.maxTokenizationLineLength": 20000,
    "editor.largeFileOptimizations": true,
    "editor.semanticHighlighting.enabled": false,
    "editor.bracketPairColorization.enabled": false,
    "editor.guides.bracketPairs": false,
    "editor.unicodeHighlight.ambiguousCharacters": false,
    "editor.unicodeHighlight.invisibleCharacters": false,
    "editor.unlinkOnSave": false,
    "editor.suggestSelection": "first",
    "editor.wordBasedSuggestions": "off",
    "editor.quickSuggestions": { "other": false, "comments": false, "strings": false },

    // ── MEMORY: Disable expensive features ──
    "editor.minimap.enabled": false,
    "editor.gotoLocation.multiple": "goto",
    "editor.codeLens": false,
    "editor.inlayHints.enabled": "off",
    "editor.stickyScroll.enabled": false,
    "editor.linkedEditing": false,
    "editor.dragAndDrop": false,
    "editor.suggest.showStatusBar": false,
    "editor.suggest.preview": false,
    "editor.suggest.insertMode": "replace",
    "editor.hover.delay": 500,
    "editor.parameterHints.enabled": false,

    // ── FILES: Aggressive watcher exclusion (prevents 35+ process spawn) ──
    "files.watcherExclude": {
        "**/.git/objects/**": true,
        "**/.git/subtree-cache/**": true,
        "**/node_modules/**": true,
        "**/.jogicode/**": true,
        "**/.tmp/**": true,
        "**/.cache/**": true,
        "**/tmp/**": true,
        "**/temp/**": true,
        "**/dist/**": true,
        "**/build/**": true,
        "**/.next/**": true,
        "**/.nuxt/**": true,
        "**/coverage/**": true,
        "**/.vscode/**": true,
        "**/out/**": true,
        "**/__pycache__/**": true,
        "**/.venv/**": true,
        "**/venv/**": true,
        "**/.idea/**": true,
        "**/target/**": true
    },
    "files.exclude": {
        "**/.jogicode": true,
        "**/.tmp": true,
        "**/.cache": true
    },
    "files.hotExit": "off",
    "files.autoSave": "off",

    // ── SEARCH: Limit memory & CPU ──
    "search.exclude": {
        "**/node_modules": true,
        "**/.jogicode": true,
        "**/.tmp": true,
        "**/dist": true,
        "**/build": true,
        "**/.next": true,
        "**/.nuxt": true,
        "**/coverage": true,
        "**/out": true,
        "**/__pycache__": true,
        "**/.venv": true,
        "**/target": true
    },
    "search.followSymlinks": false,
    "search.useReplacePreview": false,
    "search.smartCase": true,
    "search.maxResults": 1000,

    // ── TERMINAL: Minimal memory ──
    "terminal.integrated.scrollback": 1000,
    "terminal.integrated.enablePersistentSessions": false,
    "terminal.integrated.gpuAcceleration": "off",
    "terminal.integrated.windowsEnableConpty": false,

    // ── TYPESCRIPT: Reduce language server memory ──
    "typescript.tsdk": null,
    "typescript.enablePromptUseWorkspaceTsdk": true,
    "typescript.tsserver.log": "off",
    "typescript.tsserver.maxTsServerMemory": 256,
    "typescript.updateImportsOnFileMove.enabled": "never",
    "typescript.suggestionActions.enabled": false,

    // ── GIT: Minimal overhead ──
    "git.enabled": true,
    "git.autorefresh": false,
    "git.confirmSync": false,
    "git.fetchOnPull": false,
    "git.enableSmartCommit": false,
    "git.decorations.enabled": false,
    "git.ignoreMissingGitWarning": true,

    // ── EXTENSIONS: Disable auto-anything ──
    "extensions.autoUpdate": false,
    "extensions.autoCheckUpdates": false,
    "extensions.autoFetch": false,
    "extensions.ignoreRecommendations": true,
    "extensions.showRecommendationsOnlyOnDemand": true,

    // ── TELEMETRY & UPDATES: Off ──
    "telemetry.telemetryLevel": "off",
    "redhat.telemetry.enabled": false,
    "update.mode": "none",
    "update.showReleaseNotes": false,

    // ── WORKBENCH: Minimal UI overhead ──
    "workbench.startupEditor": "none",
    "workbench.colorTheme": "Default Dark+",
    "workbench.iconTheme": "vs-minimal",
    "workbench.activityBar.visible": true,
    "workbench.statusBar.visible": true,
    "workbench.sideBar.location": "left",
    "workbench.editor.enablePreview": true,
    "workbench.editor.enablePreviewFromQuickOpen": true,
    "workbench.editor.closeEmptyGroups": true,
    "workbench.editor.tabCloseButton": "left",
    "workbench.list.openMode": "doubleClick",
    "workbench.tips.enabled": false,
    "workbench.settings.enableNaturalLanguageSearch": false,

    // ── EDITOR: Core settings ──
    "editor.fontSize": 14,
    "editor.tabSize": 2,
    "editor.formatOnSave": false,
    "editor.formatOnPaste": false,
    "editor.formatOnType": false,
    "editor.renderWhitespace": "none",
    "editor.renderControlCharacters": false,
    "editor.renderLineHighlight": "line",
    "editor.cursorBlinking": "smooth",
    "editor.cursorSmoothCaretAnimation": "off",
    "editor.smoothScrolling": false,
    "editor.scrollBeyondLastLine": false,
    "editor.mouseWheelScrollSensitivity": 1,
    "editor.multiCursorModifier": "alt",
    "editor.copyWithSyntaxHighlighting": true,

    // ── WINDOW ──
    "window.menuBarVisibility": "visible",
    "window.title": "${dirty}${activeEditorShort}${separator}${rootName}",
    "window.restoreFullscreen": false,
    "window.newWindowDimensions": "maximized"
}"#;

/// The key bindings of a new user.
pub const DEFAULT_KEYBINDINGS: &'static str = r#"[
    // Right-click paste: map middle-click to paste for accessibility
    {
        "key": "ctrl+shift+v",
        "command": "editor.action.clipboardPasteAction"
    }
]"#;

/// Whether a text holds a piece of text.
pub open spec fn holds(text: Seq<char>, piece: Seq<char>) -> bool {
    exists|i: int| 0 <= i <= text.len() - piece.len() && #[trigger] text.subrange(i, i + piece.len()) == piece
}

proof fn lemma_holds_at(text: Seq<char>, piece: Seq<char>, i: int)
    requires
        0 <= i <= text.len() - piece.len(),
        forall|k: int| 0 <= k < piece.len() ==> text[i + k] == #[trigger] piece[k],
    ensures
        holds(text, piece),
{
    assert(text.subrange(i, i + piece.len()) =~= piece);
}

/// The default settings do what they are for: they cap the heaps of Node.js and of the
/// language server, keep watching, searching and scrolling back small, and turn off
/// telemetry, updates and whatever is saved without being asked for.
#[verifier::rlimit(60)]
pub proof fn law_settings_keep_the_editor_small_and_quiet()
    ensures
        holds(DEFAULT_SETTINGS@, "\"NODE_OPTIONS\": \"--max-old-space-size=384\""@),
        holds(DEFAULT_SETTINGS@, "\"editor.minimap.enabled\": false"@),
        holds(DEFAULT_SETTINGS@, "\"editor.codeLens\": false"@),
        holds(DEFAULT_SETTINGS@, "\"**/.git/objects/**\": true"@),
        holds(DEFAULT_SETTINGS@, "\"**/node_modules/**\": true"@),
        holds(DEFAULT_SETTINGS@, "\"**/.jogicode/**\": true"@),
        holds(DEFAULT_SETTINGS@, "\"files.hotExit\": \"off\""@),
        holds(DEFAULT_SETTINGS@, "\"files.autoSave\": \"off\""@),
        holds(DEFAULT_SETTINGS@, "\"**/node_modules\": true"@),
        holds(DEFAULT_SETTINGS@, "\"search.followSymlinks\": false"@),
        holds(DEFAULT_SETTINGS@, "\"search.maxResults\": 1000"@),
        holds(DEFAULT_SETTINGS@, "\"terminal.integrated.scrollback\": 1000"@),
        holds(DEFAULT_SETTINGS@, "\"typescript.tsserver.maxTsServerMemory\": 256"@),
        holds(DEFAULT_SETTINGS@, "\"git.autorefresh\": false"@),
        holds(DEFAULT_SETTINGS@, "\"extensions.autoUpdate\": false"@),
        holds(DEFAULT_SETTINGS@, "\"extensions.autoCheckUpdates\": false"@),
        holds(DEFAULT_SETTINGS@, "\"telemetry.telemetryLevel\": \"off\""@),
        holds(DEFAULT_SETTINGS@, "\"redhat.telemetry.enabled\": false"@),
        holds(DEFAULT_SETTINGS@, "\"update.mode\": \"none\""@),
        holds(DEFAULT_SETTINGS@, "\"update.showReleaseNotes\": false"@),
{
    reveal_strlit(
        r#"{
    // ════════════════════════════════════════════════════════════════════
    // JogiCode Default Settings — Memory Optimized (<600MB target)
    // ════════════════════════════════════════════════════════════════════

    // ── MEMORY CEILING: V8 / Node.js heap limits ──
    // These are read by code-server's Node.js process to cap V8 heap.
    // 384MB heap + ~100MB native = ~500MB per extension host.
    "terminal.integrated.env.windows": {
        "NODE_OPTIONS": "--max-old-space-size=384"
    },

    // ── MEMORY: Editor & Text Buffer ──
    // Reduce undo stack and render buffer memory
    "editor.maxTokenizationLineLength": 20000,
    "editor.largeFileOptimizations": true,
    "editor.semanticHighlighting.enabled": false,
    "editor.bracketPairColorization.enabled": false,
    "editor.guides.bracketPairs": false,
    "editor.unicodeHighlight.ambiguousCharacters": false,
    "editor.unicodeHighlight.invisibleCharacters": false,
    "editor.unlinkOnSave": false,
    "editor.suggestSelection": "first",
    "editor.wordBasedSuggestions": "off",
    "editor.quickSuggestions": { "other": false, "comments": false, "strings": false },

    // ── MEMORY: Disable expensive features ──
    "editor.minimap.enabled": false,
    "editor.gotoLocation.multiple": "goto",
    "editor.codeLens": false,
    "editor.inlayHints.enabled": "off",
    "editor.stickyScroll.enabled": false,
    "editor.linkedEditing": false,
    "editor.dragAndDrop": false,
    "editor.suggest.showStatusBar": false,
    "editor.suggest.preview": false,
    "editor.suggest.insertMode": "replace",
    "editor.hover.delay": 500,
    "editor.parameterHints.enabled": false,

    // ── FILES: Aggressive watcher exclusion (prevents 35+ process spawn) ──
    "files.watcherExclude": {
        "**/.git/objects/**": true,
        "**/.git/subtree-cache/**": true,
        "**/node_modules/**": true,
        "**/.jogicode/**": true,
        "**/.tmp/**": true,
        "**/.cache/**": true,
        "**/tmp/**": true,
        "**/temp/**": true,
        "**/dist/**": true,
        "**/build/**": true,
        "**/.next/**": true,
        "**/.nuxt/**": true,
        "**/coverage/**": true,
        "**/.vscode/**": true,
        "**/out/**": true,
        "**/__pycache__/**": true,
        "**/.venv/**": true,
        "**/venv/**": true,
        "**/.idea/**": true,
        "**/target/**": true
    },
    "files.exclude": {
        "**/.jogicode": true,
        "**/.tmp": true,
        "**/.cache": true
    },
    "files.hotExit": "off",
    "files.autoSave": "off",

    // ── SEARCH: Limit memory & CPU ──
    "search.exclude": {
        "**/node_modules": true,
        "**/.jogicode": true,
        "**/.tmp": true,
        "**/dist": true,
        "**/build": true,
        "**/.next": true,
        "**/.nuxt": true,
        "**/coverage": true,
        "**/out": true,
        "**/__pycache__": true,
        "**/.venv": true,
        "**/target": true
    },
    "search.followSymlinks": false,
    "search.useReplacePreview": false,
    "search.smartCase": true,
    "search.maxResults": 1000,

    // ── TERMINAL: Minimal memory ──
    "terminal.integrated.scrollback": 1000,
    "terminal.integrated.enablePersistentSessions": false,
    "terminal.integrated.gpuAcceleration": "off",
    "terminal.integrated.windowsEnableConpty": false,

    // ── TYPESCRIPT: Reduce language server memory ──
    "typescript.tsdk": null,
    "typescript.enablePromptUseWorkspaceTsdk": true,
    "typescript.tsserver.log": "off",
    "typescript.tsserver.maxTsServerMemory": 256,
    "typescript.updateImportsOnFileMove.enabled": "never",
    "typescript.suggestionActions.enabled": false,

    // ── GIT: Minimal overhead ──
    "git.enabled": true,
    "git.autorefresh": false,
    "git.confirmSync": false,
    "git.fetchOnPull": false,
    "git.enableSmartCommit": false,
    "git.decorations.enabled": false,
    "git.ignoreMissingGitWarning": true,

    // ── EXTENSIONS: Disable auto-anything ──
    "extensions.autoUpdate": false,
    "extensions.autoCheckUpdates": false,
    "extensions.autoFetch": false,
    "extensions.ignoreRecommendations": true,
    "extensions.showRecommendationsOnlyOnDemand": true,

    // ── TELEMETRY & UPDATES: Off ──
    "telemetry.telemetryLevel": "off",
    "redhat.telemetry.enabled": false,
    "update.mode": "none",
    "update.showReleaseNotes": false,

    // ── WORKBENCH: Minimal UI overhead ──
    "workbench.startupEditor": "none",
    "workbench.colorTheme": "Default Dark+",
    "workbench.iconTheme": "vs-minimal",
    "workbench.activityBar.visible": true,
    "workbench.statusBar.visible": true,
    "workbench.sideBar.location": "left",
    "workbench.editor.enablePreview": true,
    "workbench.editor.enablePreviewFromQuickOpen": true,
    "workbench.editor.closeEmptyGroups": true,
    "workbench.editor.tabCloseButton": "left",
    "workbench.list.openMode": "doubleClick",
    "workbench.tips.enabled": false,
    "workbench.settings.enableNaturalLanguageSearch": false,

    // ── EDITOR: Core settings ──
    "editor.fontSize": 14,
    "editor.tabSize": 2,
    "editor.formatOnSave": false,
    "editor.formatOnPaste": false,
    "editor.formatOnType": false,
    "editor.renderWhitespace": "none",
    "editor.renderControlCharacters": false,
    "editor.renderLineHighlight": "line",
    "editor.cursorBlinking": "smooth",
    "editor.cursorSmoothCaretAnimation": "off",
    "editor.smoothScrolling": false,
    "editor.scrollBeyondLastLine": false,
    "editor.mouseWheelScrollSensitivity": 1,
    "editor.multiCursorModifier": "alt",
    "editor.copyWithSyntaxHighlighting": true,

    // ── WINDOW ──
    "window.menuBarVisibility": "visible",
    "window.title": "${dirty}${activeEditorShort}${separator}${rootName}",
    "window.restoreFullscreen": false,
    "window.newWindowDimensions": "maximized"
}"#,
    );
    reveal_strlit("\"NODE_OPTIONS\": \"--max-old-space-size=384\"");
    lemma_holds_at(DEFAULT_SETTINGS@, "\"NODE_OPTIONS\": \"--max-old-space-size=384\""@, 460);
    reveal_strlit("\"editor.minimap.enabled\": false");
    lemma_holds_at(DEFAULT_SETTINGS@, "\"editor.minimap.enabled\": false"@, 1210);
    reveal_strlit("\"editor.codeLens\": false");
    lemma_holds_at(DEFAULT_SETTINGS@, "\"editor.codeLens\": false"@, 1291);
    reveal_strlit("\"**/.git/objects/**\": true");
    lemma_holds_at(DEFAULT_SETTINGS@, "\"**/.git/objects/**\": true"@, 1783);
    reveal_strlit("\"**/node_modules/**\": true");
    lemma_holds_at(DEFAULT_SETTINGS@, "\"**/node_modules/**\": true"@, 1861);
    reveal_strlit("\"**/.jogicode/**\": true");
    lemma_holds_at(DEFAULT_SETTINGS@, "\"**/.jogicode/**\": true"@, 1897);
    reveal_strlit("\"files.hotExit\": \"off\"");
    lemma_holds_at(DEFAULT_SETTINGS@, "\"files.hotExit\": \"off\""@, 2512);
    reveal_strlit("\"files.autoSave\": \"off\"");
    lemma_holds_at(DEFAULT_SETTINGS@, "\"files.autoSave\": \"off\""@, 2540);
    reveal_strlit("\"**/node_modules\": true");
    lemma_holds_at(DEFAULT_SETTINGS@, "\"**/node_modules\": true"@, 2638);
    reveal_strlit("\"search.followSymlinks\": false");
    lemma_holds_at(DEFAULT_SETTINGS@, "\"search.followSymlinks\": false"@, 2969);
    reveal_strlit("\"search.maxResults\": 1000");
    lemma_holds_at(DEFAULT_SETTINGS@, "\"search.maxResults\": 1000"@, 3074);
    reveal_strlit("\"terminal.integrated.scrollback\": 1000");
    lemma_holds_at(DEFAULT_SETTINGS@, "\"terminal.integrated.scrollback\": 1000"@, 3144);
    reveal_strlit("\"typescript.tsserver.maxTsServerMemory\": 256");
    lemma_holds_at(DEFAULT_SETTINGS@, "\"typescript.tsserver.maxTsServerMemory\": 256"@, 3527);
    reveal_strlit("\"git.autorefresh\": false");
    lemma_holds_at(DEFAULT_SETTINGS@, "\"git.autorefresh\": false"@, 3748);
    reveal_strlit("\"extensions.autoUpdate\": false");
    lemma_holds_at(DEFAULT_SETTINGS@, "\"extensions.autoUpdate\": false"@, 4001);
    reveal_strlit("\"extensions.autoCheckUpdates\": false");
    lemma_holds_at(DEFAULT_SETTINGS@, "\"extensions.autoCheckUpdates\": false"@, 4037);
    reveal_strlit("\"telemetry.telemetryLevel\": \"off\"");
    lemma_holds_at(DEFAULT_SETTINGS@, "\"telemetry.telemetryLevel\": \"off\""@, 4255);
    reveal_strlit("\"redhat.telemetry.enabled\": false");
    lemma_holds_at(DEFAULT_SETTINGS@, "\"redhat.telemetry.enabled\": false"@, 4294);
    reveal_strlit("\"update.mode\": \"none\"");
    lemma_holds_at(DEFAULT_SETTINGS@, "\"update.mode\": \"none\""@, 4333);
    reveal_strlit("\"update.showReleaseNotes\": false");
    lemma_holds_at(DEFAULT_SETTINGS@, "\"update.showReleaseNotes\": false"@, 4360);
}

} // verus!
