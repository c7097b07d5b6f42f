# rguard

Code quality and security scanning with deterministic auto-fixing.

- `src/` is the library, verified with Verus: issue building and WSJF
  priorities, evidence windows, each file's tree-sitter parse and the
  syntax-tree queries answered from it, report files and
  summaries, scanner and fixer descriptors, command templates and tool
  probes, the ignore layers, the fix pipeline's stage plan and per-tool
  check → fix → verify state machine, the fix report, the init generator
  and wizard choices, the SARIF reports and issues files read from their
  text, and the SonarQube conversions and requests.
- `app/` is the `rice-guard` command line around it: argument parsing,
  processes, files, terminal output and the SonarQube HTTP client.
- `tests/` exercises the library from outside.

Commands: `init`, `scan`, `fix`, `status`, `serve`, `enroll`, `report`,
`version`. Exit codes: 0 clean or success, 1 issues found, 2 tool error.
