//! The fixed text of a saved report: its markup, style sheet and script.

use vstd::prelude::*;

verus! {

/// The start of the page, up to its title.
pub const PAGE_START: &'static str = r#"
<!doctype html>
<html lang="en">
<head>
  <meta charset="utf-8">
  "#;

/// From the title in the head to the run identifier in the top bar: the style sheet.
pub const PAGE_STYLE: &'static str = r#"
  <style>
    :root {
      --bg: #efe9e2;
      --surface: #fcfaf7;
      --surface-2: #f7f0e8;
      --line: #dfcfbf;
      --line-strong: #cfb29c;
      --text: #2f241c;
      --muted: #6f6257;
      --muted-2: #917f71;
      --nav: #9a4c28;
      --nav-2: #6f3119;
      --accent: #2563eb;
      --good-bg: #eaf9ee;
      --good-text: #1c8746;
      --warn-bg: #fff2d8;
      --warn-text: #926000;
      --danger-bg: #fdeaea;
      --danger-text: #b33b3b;
      --shadow: 0 18px 44px rgba(73,45,28,0.10);
      --radius: 18px;
    }
    * { box-sizing: border-box; }
    body { margin: 0; font-family: Inter, ui-sans-serif, system-ui, -apple-system, Segoe UI, Roboto, sans-serif; background: linear-gradient(180deg, #efe9e2, #f5ede4 58%, #efe1d2); color: var(--text); }
    .topbar { background: linear-gradient(180deg, var(--nav), var(--nav-2)); color: #fff; border-bottom: 1px solid rgba(255,255,255,0.10); }
    .topbar-inner { max-width: 1460px; margin: 0 auto; padding: 12px 24px; display: flex; align-items: center; justify-content: space-between; gap: 16px; }
    .brand { display:flex; align-items:center; gap:12px; }
    .brand-mark { width: 14px; height: 14px; border-radius: 4px; background: linear-gradient(135deg, #e9a06e, #8f4220); box-shadow: 0 0 0 3px rgba(255,255,255,0.10); }
    .brand-title { font-weight: 800; }
    .wrap { max-width: 1460px; margin: 0 auto; padding: 24px; }
    .hero, .panel { background: var(--surface); border: 1px solid var(--line); border-radius: var(--radius); box-shadow: var(--shadow); padding: 22px; margin-bottom: 22px; }
    h1, h2 { margin: 0; letter-spacing: -0.02em; }
    .subtitle { color: var(--muted); line-height: 1.6; margin-top: 8px; }
    .meta { margin-top: 14px; display: flex; flex-wrap: wrap; gap: 12px; color: var(--muted); font-size: 14px; }
    .meta-chip, code { display:inline-flex; align-items:center; gap:8px; padding: 6px 10px; border-radius: 999px; border:1px solid var(--line); background: var(--surface-2); }
    .summary-grid { display:grid; grid-template-columns: repeat(auto-fit, minmax(170px,1fr)); gap: 14px; margin-top: 20px; }
    .metric { border: 1px solid var(--line); border-radius: 16px; padding: 16px; background: linear-gradient(180deg, rgba(184,93,51,0.05), rgba(37,99,235,0.03)); }
    .label { font-size: 12px; text-transform: uppercase; letter-spacing: .08em; color: var(--muted-2); }
    .value { font-size: 34px; font-weight: 800; margin-top: 6px; }
    .toolbar { display:flex; flex-wrap:wrap; justify-content:space-between; gap: 12px; align-items: center; margin-bottom: 16px; }
    .toolbar-left { display:flex; gap:10px; align-items:center; flex-wrap:wrap; }
    .search { min-width: 280px; padding: 10px 12px; border-radius: 10px; border:1px solid var(--line-strong); background:#fff; color:var(--text); }
    .pill-row { display:flex; gap:8px; flex-wrap:wrap; }
    .pill { padding: 6px 10px; border-radius: 999px; border:1px solid var(--line); background: var(--surface-2); font-size: 12px; font-weight: 700; }
    .pill.good { background: var(--good-bg); color: var(--good-text); border-color: rgba(28,135,70,0.18); }
    .table-shell { border: 1px solid var(--line); border-radius: 16px; overflow: auto; background: #fff; max-height: 900px; }
    table { width: 100%; border-collapse: collapse; font-size: 14px; }
    th, td { text-align: left; padding: 11px 10px; border-bottom: 1px solid var(--line); vertical-align: top; }
    th { color: var(--muted); font-weight: 800; background: #fbf7f2; cursor: pointer; position: sticky; top: 0; z-index: 1; }
    tbody tr:hover { background: #fffaf4; }
    tr:last-child td { border-bottom: none; }
    .mono { font-family: ui-monospace, SFMono-Regular, Menlo, Consolas, monospace; }
    .small { color: var(--muted); font-size: 13px; }
    .status-tag { display:inline-flex; align-items:center; padding: 4px 8px; border-radius: 999px; border:1px solid var(--line); background: var(--surface-2); font-size: 12px; font-weight: 700; }
    .status-analyzedexact { background: var(--good-bg); color: var(--good-text); border-color: rgba(28,135,70,0.18); }
    .status-analyzedbesteffort, .status-skippedbypolicy { background: var(--warn-bg); color: var(--warn-text); border-color: rgba(146,96,0,0.18); }
    .status-skippedunsupported, .status-skippedbinary { background: var(--danger-bg); color: var(--danger-text); border-color: rgba(179,59,59,0.18); }
    .stack { display:grid; gap:22px; }
    pre { background: #fff; border: 1px solid var(--line); border-radius: 16px; padding: 16px; overflow: auto; font-size: 12px; }
    .warn-list { margin: 0; padding-left: 18px; line-height: 1.6; }
    .sort-indicator { color: var(--muted-2); font-size: 11px; margin-left: 6px; }
    @media print {
      body { background: white; }
      .topbar, .toolbar { display:none; }
      .hero, .panel, .metric, .table-shell, pre { box-shadow:none; break-inside: avoid; }
      th { position: static; }
    }
  </style>
</head>
<body>
  <div class="topbar"><div class="topbar-inner"><div class="brand"><div class="brand-mark"></div><div><div class="brand-title">oxide-sloc</div><div style="font-size:12px;opacity:.82;">Saved HTML report</div></div></div><div class="pill-row">"#;

/// From the top bar to the heading.
pub const PAGE_HERO: &'static str = r#"</div></div></div>
  <div class="wrap">
    <section class="hero">
      <div class="hero-brand">
        <img class="hero-logo" src="/images/logo/oxide-sloc-logo-transparent.png" alt="OxideSLOC logo" />
        <div class="hero-copy">
          "#;

/// From the heading to the time of the run.
pub const PAGE_SUBTITLE: &'static str = r#"
      <p class="subtitle">Saved report artifact for this scan. Use the sortable tables below to inspect language totals, per-file details, and skipped-file reasons in the same oxide-sloc theme as the local workbench.</p>
      </div>
      </div>
      <div class="meta">
        "#;

/// The opening of the metrics.
pub const PAGE_METRICS: &'static str = r#"
      </div>
      <div class="summary-grid">
        <div class="metric"><div class="label">"#;

/// The opening of the table of languages.
pub const PAGE_LANGUAGES: &'static str = r#"</div>
      </div>
    </section>
    <section class="panel stack">
      <div>
        <div class="toolbar"><div class="toolbar-left"><h2>Language breakdown</h2></div></div>
        <div class="table-shell">
          <table data-sort-table>"#;

/// The opening of the table of files.
pub const PAGE_FILES: &'static str = r#"
        </div>
      </div>
      <div>
        <div class="toolbar"><div class="toolbar-left"><h2>Per-file detail</h2><input class="search" type="search" placeholder="Filter files, languages, status, warnings..." data-table-filter="per-file-table" /></div><div class="pill-row"><span class="pill good">Click any column header to sort</span></div></div>
        <div class="table-shell"><table id="per-file-table" data-sort-table>"#;

/// The opening of the table of skipped files.
pub const PAGE_SKIPPED: &'static str = r#"</div>
      </div>
      <div>
        <div class="toolbar"><div class="toolbar-left"><h2>Skipped files</h2><input class="search" type="search" placeholder="Filter skipped files, reasons, warnings..." data-table-filter="skipped-table" /></div></div>
        <div class="table-shell"><table id="skipped-table" data-sort-table>"#;

/// The opening of the warnings.
pub const PAGE_WARNINGS: &'static str = r#"</div>
      </div>
      <div>"#;

/// From the configuration to the end: the script that sorts and filters the tables.
pub const PAGE_END: &'static str = r#"</div>
    </section>
  </div>
  <script>
    (function () {
      function detectType(value) {
        return /^-?\d+(?:\.\d+)?$/.test(value.trim()) ? parseFloat(value) : value.toLowerCase();
      }
      document.querySelectorAll('[data-sort-table]').forEach(function (table) {
        var headers = Array.prototype.slice.call(table.querySelectorAll('th'));
        headers.forEach(function (th, idx) {
          var direction = 1;
          var marker = document.createElement('span');
          marker.className = 'sort-indicator';
          marker.textContent = '↕';
          th.appendChild(marker);
          th.addEventListener('click', function () {
            var tbody = table.tBodies[0];
            var rows = Array.prototype.slice.call(tbody.querySelectorAll('tr'));
            rows.sort(function (a, b) {
              var av = detectType(a.children[idx].innerText || a.children[idx].textContent || '');
              var bv = detectType(b.children[idx].innerText || b.children[idx].textContent || '');
              if (av < bv) return -1 * direction;
              if (av > bv) return 1 * direction;
              return 0;
            });
            rows.forEach(function (row) { tbody.appendChild(row); });
            direction = direction * -1;
          });
        });
      });
      document.querySelectorAll('[data-table-filter]').forEach(function (input) {
        var table = document.getElementById(input.getAttribute('data-table-filter'));
        if (!table) return;
        input.addEventListener('input', function () {
          var q = input.value.toLowerCase();
          Array.prototype.slice.call(table.tBodies[0].rows).forEach(function (row) {
            var text = row.innerText.toLowerCase();
            row.style.display = text.indexOf(q) >= 0 ? '' : 'none';
          });
        });
      });
    })();
  </script>
</body>
</html>
"#;

} // verus!
