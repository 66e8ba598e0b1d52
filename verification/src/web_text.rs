//! The fixed text of the pages of the web workbench: their markup, style sheets and scripts.

use vstd::prelude::*;

verus! {

/// The start page up to the working directory in its summary.
pub const INDEX_START: &'static str = r#"
<!doctype html>
<html lang="en">
<head>
  <meta charset="utf-8">
  <title>OxideSLOC local web UI</title>
  <style>
    :root {
      --bg: #eeebe6;
      --surface: #fcfbf9;
      --surface-2: #f5f1eb;
      --surface-3: #ece5dd;
      --line: #d8d0c7;
      --line-strong: #c8beb2;
      --text: #2b241f;
      --muted: #675d54;
      --muted-2: #84776b;
      --nav: #8a3f20;
      --nav-2: #5f2713;
      --accent: #2563eb;
      --accent-2: #1d4ed8;
      --success-bg: #e8f7ec;
      --success-text: #1f7a3f;
      --warn-bg: #fff3db;
      --warn-text: #8a5a00;
      --danger-bg: #fdeaea;
      --danger-text: #a53a3a;
      --shadow: 0 8px 24px rgba(47, 34, 25, 0.08);
      --radius: 10px;
    }

    body.dark-theme {
      --bg: #1a1411;
      --surface: #241b17;
      --surface-2: #2c221d;
      --surface-3: #332822;
      --line: #4f4037;
      --line-strong: #665248;
      --text: #f3ede8;
      --muted: #c6b8ad;
      --muted-2: #a89587;
      --nav: #a54d27;
      --nav-2: #6d2f17;
      --accent: #5b8cff;
      --accent-2: #3f6fe6;
      --success-bg: #183425;
      --success-text: #8ee0a6;
      --warn-bg: #3a2b12;
      --warn-text: #f2cb76;
      --danger-bg: #3c1f1f;
      --danger-text: #ff9e9e;
      --shadow: 0 12px 28px rgba(0, 0, 0, 0.28);
    }

    * { box-sizing: border-box; }

    html, body {
      margin: 0;
      min-height: 100vh;
      font-family: Inter, ui-sans-serif, system-ui, -apple-system, Segoe UI, Roboto, sans-serif;
      color: var(--text);
      background: var(--bg);
    }

    body {
      overflow-x: hidden;
    }

    .top-nav {
      background: linear-gradient(180deg, var(--nav), var(--nav-2));
      color: #fff;
      border-bottom: 1px solid rgba(255,255,255,0.08);
      box-shadow: 0 2px 8px rgba(0,0,0,0.18);
    }

    .top-nav-inner {
      max-width: 1440px;
      margin: 0 auto;
      padding: 0 20px;
      min-height: 58px;
      display: flex;
      align-items: center;
      justify-content: space-between;
      gap: 18px;
    }

    .brand {
      display: flex;
      align-items: center;
      gap: 12px;
      min-width: 0;
    }

    .brand-mark {
      width: 12px;
      height: 12px;
      border-radius: 2px;
      background: linear-gradient(135deg, #d36a3a, #8a3f20);
      box-shadow: 0 0 0 3px rgba(211, 106, 58, 0.18);
      flex: 0 0 auto;
    }

    .brand-text {
      min-width: 0;
    }

    .brand-title {
      font-size: 18px;
      font-weight: 800;
      letter-spacing: -0.02em;
      margin: 0;
      color: #fff;
    }

    .brand-subtitle {
      margin: 2px 0 0;
      font-size: 12px;
      color: rgba(255,255,255,0.72);
      white-space: nowrap;
      overflow: hidden;
      text-overflow: ellipsis;
    }

    .nav-status {
      display: flex;
      flex-wrap: wrap;
      align-items: center;
      justify-content: flex-end;
      gap: 10px;
    }

    .nav-pill {
      display: inline-flex;
      align-items: center;
      gap: 8px;
      min-height: 34px;
      padding: 0 12px;
      border-radius: 999px;
      border: 1px solid rgba(255,255,255,0.12);
      background: rgba(255,255,255,0.06);
      color: #fff;
      font-size: 12px;
      font-weight: 700;
    }

    .theme-toggle {
      display: inline-flex;
      align-items: center;
      justify-content: center;
      width: 36px;
      height: 36px;
      padding: 0;
      border-radius: 999px;
      border: 1px solid rgba(255,255,255,0.16);
      background: rgba(255,255,255,0.08);
      color: #fff;
      cursor: pointer;
      transition: background 0.15s ease, border-color 0.15s ease, transform 0.15s ease;
    }

    .theme-toggle:hover {
      background: rgba(255,255,255,0.14);
      border-color: rgba(255,255,255,0.26);
      transform: translateY(-1px);
    }

    .theme-toggle svg {
      width: 18px;
      height: 18px;
      stroke: currentColor;
      fill: none;
      stroke-width: 1.8;
      stroke-linecap: round;
      stroke-linejoin: round;
    }

    .theme-toggle .icon-sun {
      display: none;
    }

    body.dark-theme .theme-toggle .icon-moon {
      display: none;
    }

    body.dark-theme .theme-toggle .icon-sun {
      display: block;
    }

    body.dark-theme input[type="text"],
    body.dark-theme textarea,
    body.dark-theme select,
    body.dark-theme .toggle-list,
    body.dark-theme .preview-box,
    body.dark-theme .tree-shell,
    body.dark-theme .preview-code,
    body.dark-theme .code-block,
    body.dark-theme code {
      background: #201814;
      color: var(--text);
    }

    body.dark-theme .top-nav {
      border-bottom: 1px solid rgba(255,255,255,0.10);
    }

    body.dark-theme .card-header {
      background: linear-gradient(180deg, #2b211c, #241c17);
    }

    body.dark-theme button.secondary {
      background: #2b211c;
      color: var(--text);
      border-color: var(--line-strong);
    }

    body.dark-theme .preview-box,
    body.dark-theme .tree-shell,
    body.dark-theme .preview-code,
    body.dark-theme .code-block {
      border-color: var(--line);
    }

    body.dark-theme .entry-dir {
      color: #f0e6df;
    }

    body.dark-theme .entry-more {
      color: var(--muted-2);
    }

    .nav-pill code {
      background: rgba(255,255,255,0.08);
      border: 1px solid rgba(255,255,255,0.08);
      color: #fff;
    }

    .status-dot {
      width: 8px;
      height: 8px;
      border-radius: 999px;
      background: #22c55e;
      box-shadow: 0 0 0 4px rgba(34, 197, 94, 0.14);
      flex: 0 0 auto;
    }

    .page {
      max-width: 1440px;
      margin: 0 auto;
      padding: 20px;
    }

    .subnav {
      display: flex;
      flex-wrap: wrap;
      align-items: center;
      gap: 8px;
      margin-bottom: 18px;
      color: var(--muted-2);
      font-size: 13px;
    }

    .subnav strong {
      color: var(--text);
    }

    .summary-grid {
      display: grid;
      grid-template-columns: repeat(3, minmax(0, 1fr));
      gap: 14px;
      margin-bottom: 18px;
    }

    .summary-card {
      background: var(--surface);
      border: 1px solid var(--line);
      border-radius: var(--radius);
      box-shadow: var(--shadow);
      padding: 16px 18px;
    }

    .summary-label {
      margin-bottom: 8px;
      font-size: 11px;
      font-weight: 800;
      text-transform: uppercase;
      letter-spacing: 0.06em;
      color: var(--muted-2);
    }

    .summary-value {
      font-size: 14px;
      color: var(--text);
      line-height: 1.5;
      word-break: break-word;
    }

    .main-grid {
      display: grid;
      grid-template-columns: minmax(700px, 1.2fr) minmax(380px, 0.8fr);
      gap: 18px;
      align-items: start;
    }

    .card {
      background: var(--surface);
      border: 1px solid var(--line);
      border-radius: var(--radius);
      box-shadow: var(--shadow);
      overflow: hidden;
    }

    .card-header {
      padding: 14px 18px;
      border-bottom: 1px solid var(--line);
      background: linear-gradient(180deg, #fbfcfe, #f3f6fa);
    }

    .card-title {
      margin: 0;
      font-size: 18px;
      font-weight: 800;
      letter-spacing: -0.02em;
      color: var(--text);
    }

    .card-subtitle {
      margin: 5px 0 0;
      font-size: 13px;
      color: var(--muted);
      line-height: 1.5;
    }

    .card-body {
      padding: 18px;
    }

    .section {
      margin-bottom: 18px;
      padding-bottom: 18px;
      border-bottom: 1px solid var(--line);
    }

    .section:last-child {
      margin-bottom: 0;
      padding-bottom: 0;
      border-bottom: none;
    }

    .section-title {
      margin: 0 0 12px;
      font-size: 13px;
      font-weight: 800;
      color: var(--text);
      text-transform: uppercase;
      letter-spacing: 0.05em;
    }

    .field-grid {
      display: grid;
      grid-template-columns: 1fr 1fr;
      gap: 14px;
    }

    .field {
      min-width: 0;
    }

    label {
      display: block;
      margin: 0 0 7px;
      font-size: 13px;
      font-weight: 700;
      color: var(--text);
    }

    input[type="text"],
    textarea,
    select {
      width: 100%;
      min-width: 0;
      padding: 11px 12px;
      border-radius: 8px;
      border: 1px solid var(--line-strong);
      background: #fff;
      color: var(--text);
      font-size: 14px;
      line-height: 1.4;
      box-sizing: border-box;
      transition: border-color 0.15s ease, box-shadow 0.15s ease, background 0.15s ease;
    }

    input[type="text"]:focus,
    textarea:focus,
    select:focus {
      outline: none;
      border-color: var(--accent);
      box-shadow: 0 0 0 3px rgba(37, 99, 235, 0.12);
    }

    textarea {
      resize: vertical;
      min-height: 112px;
      font-family: ui-monospace, SFMono-Regular, Menlo, Consolas, monospace;
    }

    .hint {
      margin-top: 7px;
      color: var(--muted);
      font-size: 12px;
      line-height: 1.5;
    }

    .toggle-list {
      display: grid;
      gap: 10px;
      padding: 14px;
      border: 1px solid var(--line);
      border-radius: 8px;
      background: var(--surface-2);
    }

    .checkbox {
      display: flex;
      align-items: flex-start;
      gap: 10px;
      color: var(--text);
      font-size: 14px;
      line-height: 1.45;
    }

    .checkbox input {
      margin-top: 2px;
      width: 16px;
      height: 16px;
      accent-color: var(--accent);
      flex: 0 0 auto;
    }

    .action-bar {
      display: flex;
      flex-wrap: wrap;
      align-items: center;
      gap: 10px;
      padding-top: 4px;
    }

    button {
      appearance: none;
      border: 1px solid transparent;
      border-radius: 8px;
      min-height: 40px;
      padding: 0 14px;
      font-size: 14px;
      font-weight: 700;
      cursor: pointer;
      transition: background 0.15s ease, border-color 0.15s ease, box-shadow 0.15s ease, transform 0.15s ease;
    }

    button:hover {
      transform: translateY(-1px);
    }

    button.primary {
      background: linear-gradient(180deg, var(--accent), var(--accent-2));
      color: #fff;
      box-shadow: 0 6px 16px rgba(37, 99, 235, 0.22);
    }

    button.secondary {
      background: #fff;
      color: var(--text);
      border-color: var(--line-strong);
    }

    button:disabled {
      opacity: 0.75;
      cursor: progress;
    }

    .right-stack {
      display: grid;
      gap: 18px;
    }

    .info-table {
      display: grid;
      gap: 10px;
    }

    .info-row {
      display: grid;
      gap: 6px;
    }

    .info-row strong {
      font-size: 12px;
      color: var(--muted-2);
      text-transform: uppercase;
      letter-spacing: 0.05em;
    }

    .code-block {
      padding: 10px 12px;
      border-radius: 8px;
      border: 1px solid var(--line);
      background: #f8fafc;
      color: #111827;
      font-size: 12px;
      font-family: ui-monospace, SFMono-Regular, Menlo, Consolas, monospace;
      overflow-wrap: anywhere;
      word-break: break-word;
    }

    .badge-row {
      display: flex;
      flex-wrap: wrap;
      gap: 8px;
      margin: 12px 0;
    }

    .badge {
      display: inline-flex;
      align-items: center;
      min-height: 28px;
      padding: 0 10px;
      border-radius: 999px;
      font-size: 12px;
      font-weight: 700;
      border: 1px solid transparent;
    }

    .badge-scan {
      background: var(--success-bg);
      color: var(--success-text);
      border-color: #b9e2c4;
    }

    .badge-skip {
      background: var(--warn-bg);
      color: var(--warn-text);
      border-color: #f0ddb0;
    }

    .badge-unsupported {
      background: var(--danger-bg);
      color: var(--danger-text);
      border-color: #efc2c2;
    }

    .badge-dir {
      background: #edf3ff;
      color: #315ea8;
      border-color: #cad9f5;
    }

    .note {
      margin: 10px 0 0;
      padding: 12px;
      border-radius: 8px;
      border: 1px solid var(--line);
      background: var(--surface-2);
      color: var(--muted);
      font-size: 13px;
      line-height: 1.55;
    }

    .note.warn {
      background: var(--warn-bg);
      border-color: #f0ddb0;
      color: var(--warn-text);
    }

    .preview-box {
      border: 1px solid var(--line);
      border-radius: 8px;
      background: #fbfcfe;
      min-height: 560px;
      padding: 14px;
    }

    .preview-head strong {
      display: block;
      margin-bottom: 6px;
      font-size: 12px;
      text-transform: uppercase;
      letter-spacing: 0.05em;
      color: var(--muted-2);
    }

    .preview-code {
      margin-top: 4px;
      padding: 10px 12px;
      border-radius: 8px;
      border: 1px solid var(--line);
      background: #fff;
      color: #111827;
      font-family: ui-monospace, SFMono-Regular, Menlo, Consolas, monospace;
      overflow-wrap: anywhere;
      word-break: break-word;
      font-size: 12px;
    }

    .preview-legend {
      display: flex;
      flex-wrap: wrap;
      gap: 8px;
      margin: 12px 0;
    }

    .preview-note {
      margin: 10px 0;
      padding: 12px;
      border-radius: 8px;
      background: var(--surface-2);
      border: 1px solid var(--line);
      color: var(--muted);
      font-size: 13px;
      line-height: 1.55;
    }

    .preview-note-warn {
      background: var(--warn-bg);
      border-color: #f0ddb0;
      color: var(--warn-text);
    }

    .tree-shell {
      margin-top: 12px;
      border-radius: 8px;
      border: 1px solid var(--line);
      background: #fff;
      padding: 12px;
      max-height: 460px;
      overflow: auto;
    }

    .tree {
      margin: 0;
      color: #1f2937;
      font-family: ui-monospace, SFMono-Regular, Menlo, Consolas, monospace;
      font-size: 12px;
      line-height: 1.65;
      white-space: pre-wrap;
      word-break: break-word;
    }

    .entry-dir {
      color: #334155;
      font-weight: 700;
    }

    .entry-scan {
      color: #1f7a3f;
    }

    .entry-skip {
      color: #8a5a00;
    }

    .entry-unsupported {
      color: #a53a3a;
    }

    .entry-more {
      color: var(--muted-2);
      font-style: italic;
    }

    .preview-error {
      color: #a53a3a;
      background: var(--danger-bg);
      border: 1px solid #efc2c2;
      padding: 12px;
      border-radius: 8px;
      font-size: 13px;
      line-height: 1.5;
    }

    .roadmap-list {
      display: grid;
      gap: 10px;
      margin: 0;
      padding: 0;
      list-style: none;
    }

    .roadmap-list li {
      padding-left: 14px;
      position: relative;
      color: var(--text);
      font-size: 14px;
      line-height: 1.55;
    }

    .roadmap-list li::before {
      content: "";
      position: absolute;
      top: 8px;
      left: 0;
      width: 6px;
      height: 6px;
      border-radius: 999px;
      background: var(--accent);
    }

    .loading {
      position: fixed;
      inset: 0;
      display: none;
      align-items: center;
      justify-content: center;
      background: rgba(17, 24, 39, 0.34);
      z-index: 1000;
    }

    .loading.active {
      display: flex;
    }

    .loading-card {
      width: min(520px, calc(100vw - 40px));
      border: 1px solid var(--line-strong);
      border-radius: 12px;
      background: #fff;
      box-shadow: 0 18px 40px rgba(15, 23, 42, 0.18);
      padding: 22px;
      text-align: center;
    }

    .spinner {
      width: 44px;
      height: 44px;
      margin: 0 auto 14px;
      border-radius: 999px;
      border: 4px solid #dbe3ef;
      border-top-color: var(--accent);
      animation: spin 0.9s linear infinite;
    }

    @keyframes spin {
      to { transform: rotate(360deg); }
    }

    .progress-bar {
      width: 100%;
      height: 8px;
      margin-top: 14px;
      border-radius: 999px;
      background: #e7edf6;
      overflow: hidden;
    }

    .progress-bar span {
      display: block;
      width: 42%;
      height: 100%;
      border-radius: 999px;
      background: linear-gradient(90deg, var(--accent), #6b8cff);
      animation: pulseBar 1.4s ease-in-out infinite;
    }

    @keyframes pulseBar {
      0%   { transform: translateX(-35%); width: 25%; }
      50%  { transform: translateX(130%); width: 44%; }
      100% { transform: translateX(250%); width: 25%; }
    }

    code {
      display: inline-block;
      max-width: 100%;
      overflow-wrap: anywhere;
      font-family: ui-monospace, SFMono-Regular, Menlo, Consolas, monospace;
      background: #eff4fa;
      border: 1px solid #d7dee9;
      padding: 2px 6px;
      border-radius: 6px;
    }

    @media (max-width: 1180px) {
      .main-grid {
        grid-template-columns: 1fr;
      }
    }

    @media (max-width: 860px) {
      .summary-grid,
      .field-grid {
        grid-template-columns: 1fr;
      }

      .top-nav-inner {
        padding-top: 10px;
        padding-bottom: 10px;
        align-items: flex-start;
        flex-direction: column;
      }

      .nav-status {
        justify-content: flex-start;
      }
    }
  </style>
</head>
<body>
  <div class="top-nav">
    <div class="top-nav-inner">
      <div class="brand">
        <div class="brand-mark"></div>
        <div class="brand-text">
          <div class="brand-title">OxideSLOC</div>
          <div class="brand-subtitle">Local analysis workbench</div>
        </div>
      </div>

      <div class="nav-status">
        <button type="button" class="theme-toggle" id="theme-toggle" aria-label="Toggle theme" title="Toggle theme">
          <svg class="icon-moon" viewBox="0 0 24 24" aria-hidden="true">
            <path d="M21 12.8A9 9 0 1 1 11.2 3a7 7 0 1 0 9.8 9.8z"></path>
          </svg>
          <svg class="icon-sun" viewBox="0 0 24 24" aria-hidden="true">
            <circle cx="12" cy="12" r="4"></circle>
            <path d="M12 2v2"></path>
            <path d="M12 20v2"></path>
            <path d="M2 12h2"></path>
            <path d="M20 12h2"></path>
            <path d="M4.9 4.9l1.4 1.4"></path>
            <path d="M17.7 17.7l1.4 1.4"></path>
            <path d="M4.9 19.1l1.4-1.4"></path>
            <path d="M17.7 6.3l1.4-1.4"></path>
          </svg>
        </button>
        <div class="nav-pill"><span class="status-dot"></span>Server online</div>
        <div class="nav-pill">Endpoint <code>127.0.0.1:4317</code></div>
        <div class="nav-pill">Mode localhost UI</div>
      </div>
    </div>
  </div>

  <div class="loading" id="loading">
    <div class="loading-card">
      <div class="spinner"></div>
      <h2>Scanning project...</h2>
      <p>This build still performs web scans synchronously. For very large repositories, keep this tab open while the Rust analysis core completes the run.</p>
      <div class="progress-bar"><span></span></div>
    </div>
  </div>

  <div class="page">
    <div class="subnav">
      <span>Workbench</span>
      <span>/</span>
      <strong>Configure scan</strong>
    </div>

    <div class="summary-grid">
      <section class="summary-card">
        <div class="summary-label">Supported analyzers</div>
        <div class="summary-value">C, C++, C#, Python, Shell, PowerShell</div>
      </section>
      <section class="summary-card">
        <div class="summary-label">Default sample target</div>
        <div class="summary-value"><code>samples/basic</code></div>
      </section>
      <section class="summary-card">
        "#;

/// From the summary to the form.
pub const INDEX_FORM: &'static str = r#"
      </section>
    </div>

    <div class="main-grid">
      <section class="card">
        <div class="card-header">
          <h1 class="card-title">Scan configuration</h1>
          <p class="card-subtitle">Configure the target path, counting behavior, include and exclude rules, and which artifacts should be saved for this run.</p>
        </div>
        <div class="card-body">
          "#;

/// From the opening of the form to its path.
pub const INDEX_PATH: &'static str = r#"
            <div class="section">
              <div class="section-title">Target</div>
              <div class="field">
                <label for="path">Project path</label>
                "#;

/// From the path to the output directory.
pub const INDEX_OUTPUT: &'static str = r#" value="samples/basic" placeholder="/path/to/repository" required />
                <div class="hint">This localhost UI uses a server-side preview instead of embedding the platform file explorer.</div>
              </div>
            </div>

            <div class="section">
              <div class="section-title">Run metadata</div>
              <div class="field-grid">
                <div class="field">
                  <label for="output_dir">Output directory</label>
                  "#;

/// From the output directory to the title.
pub const INDEX_TITLE: &'static str = r#" value="out/web" placeholder="out/web" />
                  <div class="hint">Each run creates its own folder underneath this base directory.</div>
                </div>
                <div class="field">
                  <label for="report_title">Report title</label>
                  "#;

/// From the title to the policy for mixed lines.
pub const INDEX_POLICY: &'static str = r#" value="OxideSLOC Report" placeholder="OxideSLOC Report" />
                </div>
              </div>
            </div>

            <div class="section">
              <div class="section-title">Counting behavior</div>
              <div class="field-grid">
                <div class="field">
                  <label for="mixed_line_policy">Mixed-line policy</label>
                  "#;

/// From the policies to the docstrings.
pub const INDEX_DOCSTRINGS: &'static str = r#"
                  </select>
                </div>
                <div class="field">
                  <label>Python docstrings</label>
                  <div class="toggle-list">
                    <label class="checkbox">
                      "#;

/// From the docstrings to the patterns of what is included.
pub const INDEX_INCLUDE: &'static str = r#" checked />
                      <span>Count Python docstrings as comments</span>
                    </label>
                  </div>
                </div>
              </div>
            </div>

            <div class="section">
              <div class="section-title">Path filters</div>
              <div class="field-grid">
                <div class="field">
                  <label for="include_globs">Include globs</label>
                  "#;

/// From there to the patterns of what is left out.
pub const INDEX_EXCLUDE: &'static str = r#" placeholder="examples:&#10;src/**/*.py&#10;scripts/*.sh"></textarea>
                  <div class="hint">Use line-separated or comma-separated patterns to explicitly include paths. Unsupported languages still need analyzer support.</div>
                </div>
                <div class="field">
                  <label for="exclude_globs">Exclude globs</label>
                  "#;

/// From the patterns to the choice of the report.
pub const INDEX_HTML: &'static str = r#" placeholder="examples:&#10;vendor/**&#10;**/*.min.js"></textarea>
                  <div class="hint">Use this to trim generated code, vendor directories, build outputs, or file classes from a run.</div>
                </div>
              </div>
            </div>

            <div class="section">
              <div class="section-title">Artifacts</div>
              <div class="toggle-list">
                <label class="checkbox">
                  "#;

/// From there to the choice of the PDF.
pub const INDEX_PDF: &'static str = r#" checked />
                  <span>Generate HTML report</span>
                </label>
                <label class="checkbox">
                  "#;

/// From there to the choice of the JSON.
pub const INDEX_JSON: &'static str = r#" checked />
                  <span>Generate PDF report</span>
                </label>
                <label class="checkbox">
                  "#;

/// From the choices to the working directory in the inspector.
pub const INDEX_INSPECTOR: &'static str = r#" />
                  <span>Generate JSON report</span>
                </label>
              </div>
            </div>

            <div class="action-bar">
              <button type="submit" id="submit-button" class="primary">Run analysis</button>
              <button type="button" class="secondary" id="refresh-preview">Refresh preview</button>
            </div>
          </form>
        </div>
      </section>

      <aside class="right-stack">
        <section class="card">
          <div class="card-header">
            <h2 class="card-title">Workspace inspector</h2>
            <p class="card-subtitle">Preview the selected target, understand likely scanned content, and see how the current run is expected to traverse the tree.</p>
          </div>
          <div class="card-body">
            <div class="info-table">
              <div class="info-row">
                "#;

/// The rest of the start page, with its script.
pub const INDEX_END: &'static str = r#"
              </div>
              <div class="info-row">
                <strong>Artifact root</strong>
                <div class="code-block">out/web</div>
              </div>
            </div>

            <div class="badge-row">
              <span class="badge badge-scan">likely scanned</span>
              <span class="badge badge-skip">skipped by default</span>
              <span class="badge badge-unsupported">unsupported</span>
            </div>

            <div class="note">This preview is heuristic. Final results still depend on ignore rules, globs, generated or minified detection, and supported language analyzers.</div>

            <div class="preview-box" id="preview-panel">
              <div class="preview-error">Loading preview...</div>
            </div>
          </div>
        </section>

        <section class="card">
          <div class="card-header">
            <h2 class="card-title">Operational notes</h2>
            <p class="card-subtitle">Current behavior and next-step architecture planning.</p>
          </div>
          <div class="card-body">
            <div class="note">Web scans still run synchronously. For very large repositories, the browser waits for the request to finish.</div>
            <div class="note warn">Future workspace mode should treat super-repos and git submodules as separate project units with a rollup summary.</div>
            <ul class="roadmap-list">
              <li>Per-submodule project reports plus one workspace summary.</li>
              <li>Artifact discovery panel for HTML, PDF, and JSON outputs.</li>
              <li>Selectable workspace members for partial scans.</li>
            </ul>
          </div>
        </section>
      </aside>
    </div>
  </div>

  <script>
    (function () {
      var form = document.getElementById("analyze-form");
      var loading = document.getElementById("loading");
      var submitButton = document.getElementById("submit-button");
      var pathInput = document.getElementById("path");
      var previewPanel = document.getElementById("preview-panel");
      var refreshButton = document.getElementById("refresh-preview");
      var themeToggle = document.getElementById("theme-toggle");
      var previewTimer = null;

      function applyTheme(theme) {
        if (theme === "dark") {
          document.body.classList.add("dark-theme");
        } else {
          document.body.classList.remove("dark-theme");
        }
      }

      function loadSavedTheme() {
        var saved = null;
        try {
          saved = localStorage.getItem("oxidesloc-theme");
        } catch (e) {
          saved = null;
        }

        if (saved === "dark" || saved === "light") {
          applyTheme(saved);
          return;
        }

        var prefersDark = false;
        try {
          prefersDark = window.matchMedia("(prefers-color-scheme: dark)").matches;
        } catch (e) {
          prefersDark = false;
        }

        applyTheme(prefersDark ? "dark" : "light");
      }

      function loadPreview() {
        if (!previewPanel || !pathInput) {
          return;
        }

        var path = pathInput.value || "samples/basic";
        previewPanel.innerHTML = '<div class="preview-error">Refreshing preview...</div>';

        fetch("/preview?path=" + encodeURIComponent(path))
          .then(function (response) { return response.text(); })
          .then(function (html) { previewPanel.innerHTML = html; })
          .catch(function (err) {
            previewPanel.innerHTML =
              '<div class="preview-error">Preview request failed: ' +
              String(err) +
              '</div>';
          });
      }

      if (themeToggle) {
        themeToggle.addEventListener("click", function () {
          var nextTheme = document.body.classList.contains("dark-theme") ? "light" : "dark";
          applyTheme(nextTheme);
          try {
            localStorage.setItem("oxidesloc-theme", nextTheme);
          } catch (e) {}
        });
      }

      loadSavedTheme();

      if (pathInput) {
        pathInput.addEventListener("input", function () {
          if (previewTimer) {
            clearTimeout(previewTimer);
          }
          previewTimer = setTimeout(loadPreview, 300);
        });
      }

      if (refreshButton) {
        refreshButton.addEventListener("click", loadPreview);
      }

      if (form && loading && submitButton) {
        form.addEventListener("submit", function () {
          submitButton.disabled = true;
          submitButton.textContent = "Scanning...";
          loading.classList.add("active");
        });
      }

      loadPreview();
    })();
  </script>
</body>
</html>
"#;

/// The page of a failed analysis up to the message.
pub const ERROR_START: &'static str = r#"
<!doctype html>
<html lang="en">
<head>
  <meta charset="utf-8">
  <title>OxideSLOC error</title>
  <style>
    body {
      margin: 0;
      min-height: 100vh;
      font-family: Inter, ui-sans-serif, system-ui, -apple-system, Segoe UI, Roboto, sans-serif;
      background: linear-gradient(135deg, #0b1020, #121935 48%, #1f2b58);
      color: #edf2ff;
      padding: 32px;
    }
    .panel {
      max-width: 900px;
      margin: 0 auto;
      border-radius: 24px;
      border: 1px solid rgba(120, 155, 255, 0.28);
      background: rgba(18, 25, 53, 0.92);
      box-shadow: 0 20px 60px rgba(0, 0, 0, 0.28);
      padding: 24px;
    }
    pre {
      white-space: pre-wrap;
      background: rgba(9, 15, 34, 0.70);
      border: 1px solid rgba(120, 155, 255, 0.18);
      padding: 16px;
      border-radius: 16px;
      overflow: auto;
    }
    a {
      color: #9ab6ff;
      text-decoration: none;
      font-weight: 700;
    }
  </style>
</head>
<body>
  <div class="panel">
    <h1>Analysis failed</h1>
    <pre>"#;

/// The rest of the page of a failed analysis.
pub const ERROR_END: &'static str = r#"</pre>
    <p><a href="/">Back to setup</a></p>
  </div>
</body>
</html>
"#;

/// The result page up to its title.
pub const RESULT_START: &'static str = r#"
<!doctype html>
<html lang="en">
<head>
  <meta charset="utf-8">
  "#;

/// From the title in the head to the heading: the style sheet.
pub const RESULT_STYLE: &'static str = r#"
  <style>
    :root {
      --bg-a: #0b1020;
      --bg-b: #121935;
      --bg-c: #1f2b58;
      --panel: rgba(18, 25, 53, 0.88);
      --line: rgba(87, 120, 255, 0.34);
      --text: #edf2ff;
      --muted: #b8c3eb;
      --accent: #5d8cff;
      --accent-2: #8a62ff;
      --good: #7fe29a;
      --shadow: 0 20px 60px rgba(0, 0, 0, 0.28);
    }

    * { box-sizing: border-box; }

    body {
      margin: 0;
      min-height: 100vh;
      font-family: Inter, ui-sans-serif, system-ui, -apple-system, Segoe UI, Roboto, sans-serif;
      color: var(--text);
      background:
        radial-gradient(circle at 14% 18%, rgba(93, 140, 255, 0.22), transparent 28%),
        radial-gradient(circle at 86% 8%, rgba(124, 77, 255, 0.18), transparent 26%),
        linear-gradient(135deg, var(--bg-a), var(--bg-b) 48%, var(--bg-c));
    }

    .wrap {
      max-width: 1320px;
      margin: 0 auto;
      padding: 32px 22px 48px;
    }

    .panel {
      background: var(--panel);
      border: 1px solid var(--line);
      border-radius: 26px;
      padding: 22px;
      box-shadow: var(--shadow);
      backdrop-filter: blur(18px);
      margin-bottom: 22px;
    }

    .topbar {
      display: flex;
      flex-wrap: wrap;
      gap: 12px;
      justify-content: space-between;
      align-items: flex-start;
      margin-bottom: 16px;
    }

    h1, h2 {
      margin: 0;
      letter-spacing: -0.02em;
    }

    .muted {
      color: var(--muted);
    }

    .meta-grid {
      display: grid;
      grid-template-columns: repeat(auto-fit, minmax(190px, 1fr));
      gap: 14px;
      margin-top: 18px;
    }

    .metric {
      border: 1px solid rgba(111, 144, 255, 0.28);
      border-radius: 18px;
      padding: 16px;
      background: rgba(9, 15, 34, 0.48);
    }

    .metric .label {
      color: #aebeea;
      font-size: 12px;
      text-transform: uppercase;
      letter-spacing: 0.08em;
      margin-bottom: 8px;
    }

    .metric .value {
      font-size: 38px;
      font-weight: 800;
      line-height: 1;
    }

    .action-row {
      display: flex;
      flex-wrap: wrap;
      gap: 12px;
      margin-top: 18px;
    }

    .button {
      display: inline-flex;
      align-items: center;
      justify-content: center;
      border-radius: 14px;
      border: 1px solid rgba(111, 144, 255, 0.30);
      padding: 12px 16px;
      text-decoration: none;
      color: white;
      background: linear-gradient(135deg, var(--accent), var(--accent-2));
      font-weight: 800;
      box-shadow: 0 12px 24px rgba(73, 106, 255, 0.22);
    }

    .button.secondary {
      background: rgba(9, 15, 34, 0.48);
      box-shadow: none;
      color: #e4ebff;
    }

    .path-list {
      display: grid;
      gap: 10px;
      margin-top: 18px;
    }

    .path-item {
      padding: 14px;
      border-radius: 16px;
      border: 1px solid rgba(111, 144, 255, 0.16);
      background: rgba(9, 15, 34, 0.42);
    }

    .path-item strong {
      display: block;
      margin-bottom: 6px;
    }

    code {
      display: inline-block;
      max-width: 100%;
      overflow-wrap: anywhere;
      font-family: ui-monospace, SFMono-Regular, Menlo, Consolas, monospace;
      background: rgba(9, 15, 34, 0.60);
      border: 1px solid rgba(106, 140, 255, 0.20);
      padding: 2px 6px;
      border-radius: 8px;
    }

    .two-col {
      display: grid;
      grid-template-columns: 0.95fr 1.05fr;
      gap: 22px;
      align-items: start;
    }

    table {
      width: 100%;
      border-collapse: collapse;
      font-size: 14px;
    }

    th, td {
      text-align: left;
      padding: 10px 8px;
      border-bottom: 1px solid rgba(111, 144, 255, 0.20);
    }

    th {
      color: #b8c6ed;
      font-weight: 700;
    }

    tr:last-child td {
      border-bottom: none;
    }

    .preview-shell {
      border-radius: 20px;
      overflow: hidden;
      border: 1px solid rgba(111, 144, 255, 0.22);
      background: rgba(9, 15, 34, 0.42);
    }

    iframe {
      width: 100%;
      min-height: 920px;
      border: none;
      background: white;
    }

    .empty-preview {
      padding: 26px;
      color: var(--muted);
      line-height: 1.6;
    }

    @media (max-width: 1080px) {
      .two-col {
        grid-template-columns: 1fr;
      }
    }
  </style>
</head>
<body>
  <div class="wrap">
    <section class="panel">
      <div class="topbar">
        <div>
          "#;

/// From the path to the first of the metrics.
pub const RESULT_METRICS: &'static str = r#"</p>
        </div>
        <div>
          <a class="button secondary" href="/">New scan</a>
        </div>
      </div>

      <div class="meta-grid">
        <div class="metric"><div class="label">"#;

/// From the files to the rows of the table of languages.
pub const RESULT_LANGUAGES: &'static str = r#"
      </div>
    </section>

    <div class="two-col">
      <section class="panel">
        <h2>Language breakdown</h2>
        <p class="muted">A quick summary of what this run actually counted across supported languages.</p>

        <table>
          "#;

/// From the table of languages to the preview of the report.
pub const RESULT_PREVIEW: &'static str = r#"
      </section>

      <section class="panel">
        <h2>Report preview</h2>
        <p class="muted">This preview uses the saved HTML artifact for the run. PDF and JSON links are available above when selected.</p>

        <div class="preview-shell">
          "#;

} // verus!
