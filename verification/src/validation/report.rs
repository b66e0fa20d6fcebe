//! Validation reports in TAP and HTML form: pure renderings of a
//! `ValidationResult` and the validated file's path.  Reading the file
//! itself stays with the surrounding program.

use vstd::prelude::*;
use vstd::string::StringExecFns;
use crate::text::{escape_html, spec_digits, spec_escape, usize_to_string};
use crate::validation::errors::{ValidationError, ValidationResult, ValidationWarning};

verus! {

/// Shorthand: the HTML-escaped form of a whole text.
pub open spec fn esc(s: Seq<char>) -> Seq<char> {
    spec_escape(s, s.len() as int)
}

/// The per-error detail lines of the TAP diagnostic block.
pub open spec fn spec_error_detail_lines(errors: Seq<ValidationError>, n: int) -> Seq<char>
    decreases n,
{
    if n <= 0 {
        Seq::empty()
    } else {
        spec_error_detail_lines(errors, n - 1) + "      - "@ + errors[n - 1].error_type@
            + ": "@ + errors[n - 1].message@ + "\n"@
    }
}

/// A validation outcome as one TAP test: `ok` when valid, else a
/// `not ok` with a diagnostic block naming the file, the counts and
/// each error.
pub open spec fn spec_validation_tap(v: ValidationResult, path: Seq<char>) -> Seq<char> {
    if v.valid {
        "TAP version 13\n1..1\nok 1 - Feature validation passed\n"@
    } else {
        "TAP version 13\n1..1\nnot ok 1 - Feature validation failed\n  ---\n  message: |\n    File: "@
            + path + "\n    Errors: "@ + spec_digits(v.errors@.len() as int)
            + "\n    Warnings: "@ + spec_digits(v.warnings@.len() as int) + "\n"@ + (
        if v.errors@.len() > 0 {
            "    Error details:\n"@ + spec_error_detail_lines(
                v.errors@,
                v.errors@.len() as int,
            )
        } else {
            Seq::empty()
        }) + "  ...\n"@
    }
}

/// Render a validation outcome as TAP.
pub fn validation_to_tap(result: &ValidationResult, path: &str) -> (out: String)
    ensures
        out@ == spec_validation_tap(*result, path@),
{
    if result.valid {
        String::from_str("TAP version 13\n1..1\nok 1 - Feature validation passed\n")
    } else {
        let mut out = String::from_str(
            "TAP version 13\n1..1\nnot ok 1 - Feature validation failed\n  ---\n  message: |\n    File: ",
        );
        out.append(path);
        out.append("\n    Errors: ");
        let ec = usize_to_string(result.errors.len());
        out.append(ec.as_str());
        out.append("\n    Warnings: ");
        let wc = usize_to_string(result.warnings.len());
        out.append(wc.as_str());
        out.append("\n");
        if result.errors.len() > 0 {
            out.append("    Error details:\n");
            let ghost base = out@;
            let n = result.errors.len();
            for i in 0..n
                invariant
                    n == result.errors@.len(),
                    out@ == base + spec_error_detail_lines(result.errors@, i as int),
            {
                out.append("      - ");
                out.append(result.errors[i].error_type.as_str());
                out.append(": ");
                out.append(result.errors[i].message.as_str());
                out.append("\n");
                proof {
                    assert(out@ =~= base + spec_error_detail_lines(result.errors@, i + 1));
                }
            }
        }
        out.append("  ...\n");
        proof {
            assert(out@ =~= spec_validation_tap(*result, path@));
        }
        out
    }
}

/// The fixed document head of the HTML report, style included.
pub open spec fn spec_html_head() -> Seq<char> {
    "<!DOCTYPE html>\n<html lang=\"en\">\n<head>\n  <meta charset=\"UTF-8\">\n  <meta name=\"viewport\" content=\"width=device-width, initial-scale=1.0\">\n  <title>Validation Report - web-spec</title>\n  <style>\n    * { margin: 0; padding: 0; box-sizing: border-box; }\n    body { font-family: -apple-system, BlinkMacSystemFont, 'Segoe UI', Roboto, 'Helvetica Neue', Arial, sans-serif; background-color: #f5f7fa; color: #2c3e50; line-height: 1.6; }\n    .container { max-width: 1200px; margin: 0 auto; padding: 0 20px; }\n    .header { background: linear-gradient(135deg, #667eea 0%, #764ba2 100%); color: white; padding: 40px 0; }\n    .header h1 { font-size: 2.5em; margin-bottom: 10px; }\n    main { padding: 40px 0; }\n    .validation-report { background: white; padding: 30px; border-radius: 8px; }\n    .report-header { display: flex; justify-content: space-between; align-items: center; margin-bottom: 20px; padding-bottom: 20px; border-bottom: 2px solid #ecf0f1; }\n    .status-badge { display: inline-block; padding: 6px 12px; border-radius: 20px; font-weight: bold; }\n    .badge-valid { background-color: #d4edda; color: #155724; }\n    .badge-invalid { background-color: #f8d7da; color: #721c24; }\n    .file-info { background-color: #f8f9fa; border-left: 4px solid #667eea; padding: 15px; margin-bottom: 20px; }\n    .file-label { font-size: 0.85em; color: #7f8c8d; }\n    .file-path { font-weight: 600; word-break: break-all; }\n    .error-item, .warning-item { padding: 12px; margin-bottom: 10px; border-left: 4px solid #e74c3c; background-color: #fef2f2; }\n    .warning-item { border-left-color: #f39c12; background-color: #fffbf0; }\n    .error-message, .warning-message { font-weight: 600; }\n    .error-text { font-size: 0.9em; color: #555; }\n    .stat-card { background-color: #f8f9fa; padding: 15px; border-left: 4px solid #667eea; }\n    .stat-value.valid { color: #27ae60; }\n    .stat-value.invalid { color: #e74c3c; }\n    .footer { background-color: #2c3e50; color: #ecf0f1; text-align: center; padding: 20px 0; margin-top: 40px; }\n  </style>\n</head>\n<body>\n  <header class=\"header\">\n    <div class=\"container\">\n      <h1>Feature Validation Report</h1>\n    </div>\n  </header>\n  <main class=\"container\">\n    <div class=\"validation-report\">\n"@
}

pub open spec fn spec_status_word(valid: bool) -> Seq<char> {
    if valid {
        "VALID"@
    } else {
        "INVALID"@
    }
}

pub open spec fn spec_badge_class(valid: bool) -> Seq<char> {
    if valid {
        "badge-valid"@
    } else {
        "badge-invalid"@
    }
}

pub open spec fn spec_value_class(valid: bool) -> Seq<char> {
    if valid {
        "valid"@
    } else {
        "invalid"@
    }
}

/// The report header, file block and summary cards.
pub open spec fn spec_html_summary(v: ValidationResult, path: Seq<char>) -> Seq<char> {
    "      <div class=\"report-header\">\n        <h2>Validation Result</h2>\n        <span class=\"status-badge "@
        + spec_badge_class(v.valid) + "\">"@ + spec_status_word(v.valid)
        + "</span>\n      </div>\n      <div class=\"file-info\">\n        <div class=\"file-label\">FILE</div>\n        <div class=\"file-path\">"@
        + esc(path)
        + "</div>\n      </div>\n      <div class=\"summary-stats\">\n        <div class=\"stat-card\">\n          <div class=\"stat-label\">VALIDATION STATUS</div>\n          <div class=\"stat-value "@
        + spec_value_class(v.valid) + "\">"@ + spec_status_word(v.valid)
        + "</div>\n        </div>\n        <div class=\"stat-card\">\n          <div class=\"stat-label\">ERRORS</div>\n          <div class=\"stat-value invalid\">"@
        + spec_digits(v.errors@.len() as int)
        + "</div>\n        </div>\n        <div class=\"stat-card\">\n          <div class=\"stat-label\">WARNINGS</div>\n          <div class=\"stat-value\">"@
        + spec_digits(v.warnings@.len() as int) + "</div>\n        </div>\n      </div>\n"@
}

/// One list item per error, message and kind escaped.
pub open spec fn spec_html_error_items(errors: Seq<ValidationError>, n: int) -> Seq<char>
    decreases n,
{
    if n <= 0 {
        Seq::empty()
    } else {
        spec_html_error_items(errors, n - 1)
            + "          <li class=\"error-item\">\n            <div class=\"error-message\">"@
            + esc(errors[n - 1].message@) + "</div>\n            <div class=\"error-text\">"@
            + esc(errors[n - 1].error_type@) + "</div>\n          </li>\n"@
    }
}

/// One list item per warning, message escaped.
pub open spec fn spec_html_warning_items(warnings: Seq<ValidationWarning>, n: int) -> Seq<char>
    decreases n,
{
    if n <= 0 {
        Seq::empty()
    } else {
        spec_html_warning_items(warnings, n - 1)
            + "          <li class=\"warning-item\">\n            <div class=\"warning-message\">"@
            + esc(warnings[n - 1].message@) + "</div>\n          </li>\n"@
    }
}

/// The errors section, present only when errors exist.
pub open spec fn spec_html_errors_section(v: ValidationResult) -> Seq<char> {
    if v.errors@.len() > 0 {
        "      <div class=\"errors-section\">\n        <h3>Errors</h3>\n        <ul class=\"error-list\">\n"@
            + spec_html_error_items(v.errors@, v.errors@.len() as int)
            + "        </ul>\n      </div>\n"@
    } else {
        Seq::empty()
    }
}

/// The warnings section, present only when warnings exist.
pub open spec fn spec_html_warnings_section(v: ValidationResult) -> Seq<char> {
    if v.warnings@.len() > 0 {
        "      <div class=\"warnings-section\">\n        <h3>Warnings</h3>\n        <ul class=\"warning-list\">\n"@
            + spec_html_warning_items(v.warnings@, v.warnings@.len() as int)
            + "        </ul>\n      </div>\n"@
    } else {
        Seq::empty()
    }
}

pub open spec fn spec_html_foot() -> Seq<char> {
    "    </div>\n  </main>\n  <footer class=\"footer\">\n    <div class=\"container\">\n      <p>Generated by web-spec</p>\n    </div>\n  </footer>\n</body>\n</html>\n"@
}

/// The whole HTML report of a validation outcome.
pub open spec fn spec_validation_html(v: ValidationResult, path: Seq<char>) -> Seq<char> {
    spec_html_head() + spec_html_summary(v, path) + spec_html_errors_section(v)
        + spec_html_warnings_section(v) + spec_html_foot()
}

fn append_html_summary(out: &mut String, result: &ValidationResult, path: &str)
    ensures
        final(out)@ == old(out)@ + spec_html_summary(*result, path@),
{
    out.append(
        "      <div class=\"report-header\">\n        <h2>Validation Result</h2>\n        <span class=\"status-badge ",
    );
    if result.valid {
        out.append("badge-valid");
    } else {
        out.append("badge-invalid");
    }
    out.append("\">");
    if result.valid {
        out.append("VALID");
    } else {
        out.append("INVALID");
    }
    out.append(
        "</span>\n      </div>\n      <div class=\"file-info\">\n        <div class=\"file-label\">FILE</div>\n        <div class=\"file-path\">",
    );
    let escaped = escape_html(path);
    out.append(escaped.as_str());
    out.append(
        "</div>\n      </div>\n      <div class=\"summary-stats\">\n        <div class=\"stat-card\">\n          <div class=\"stat-label\">VALIDATION STATUS</div>\n          <div class=\"stat-value ",
    );
    if result.valid {
        out.append("valid");
    } else {
        out.append("invalid");
    }
    out.append("\">");
    if result.valid {
        out.append("VALID");
    } else {
        out.append("INVALID");
    }
    out.append(
        "</div>\n        </div>\n        <div class=\"stat-card\">\n          <div class=\"stat-label\">ERRORS</div>\n          <div class=\"stat-value invalid\">",
    );
    let ec = usize_to_string(result.errors.len());
    out.append(ec.as_str());
    out.append(
        "</div>\n        </div>\n        <div class=\"stat-card\">\n          <div class=\"stat-label\">WARNINGS</div>\n          <div class=\"stat-value\">",
    );
    let wc = usize_to_string(result.warnings.len());
    out.append(wc.as_str());
    out.append("</div>\n        </div>\n      </div>\n");
    proof {
        assert(out@ =~= old(out)@ + spec_html_summary(*result, path@));
    }
}

fn append_html_errors(out: &mut String, result: &ValidationResult)
    ensures
        final(out)@ == old(out)@ + spec_html_errors_section(*result),
{
    if result.errors.len() > 0 {
        out.append(
            "      <div class=\"errors-section\">\n        <h3>Errors</h3>\n        <ul class=\"error-list\">\n",
        );
        let ghost base = out@;
        let n = result.errors.len();
        for i in 0..n
            invariant
                n == result.errors@.len(),
                out@ == base + spec_html_error_items(result.errors@, i as int),
        {
            out.append(
                "          <li class=\"error-item\">\n            <div class=\"error-message\">",
            );
            let msg = escape_html(result.errors[i].message.as_str());
            out.append(msg.as_str());
            out.append("</div>\n            <div class=\"error-text\">");
            let ty = escape_html(result.errors[i].error_type.as_str());
            out.append(ty.as_str());
            out.append("</div>\n          </li>\n");
            proof {
                assert(out@ =~= base + spec_html_error_items(result.errors@, i + 1));
            }
        }
        out.append("        </ul>\n      </div>\n");
    }
    proof {
        assert(out@ =~= old(out)@ + spec_html_errors_section(*result));
    }
}

fn append_html_warnings(out: &mut String, result: &ValidationResult)
    ensures
        final(out)@ == old(out)@ + spec_html_warnings_section(*result),
{
    if result.warnings.len() > 0 {
        out.append(
            "      <div class=\"warnings-section\">\n        <h3>Warnings</h3>\n        <ul class=\"warning-list\">\n",
        );
        let ghost base = out@;
        let n = result.warnings.len();
        for i in 0..n
            invariant
                n == result.warnings@.len(),
                out@ == base + spec_html_warning_items(result.warnings@, i as int),
        {
            out.append(
                "          <li class=\"warning-item\">\n            <div class=\"warning-message\">",
            );
            let msg = escape_html(result.warnings[i].message.as_str());
            out.append(msg.as_str());
            out.append("</div>\n          </li>\n");
            proof {
                assert(out@ =~= base + spec_html_warning_items(result.warnings@, i + 1));
            }
        }
        out.append("        </ul>\n      </div>\n");
    }
    proof {
        assert(out@ =~= old(out)@ + spec_html_warnings_section(*result));
    }
}

/// Render a validation outcome as a standalone HTML report.
pub fn validation_to_html(result: &ValidationResult, path: &str) -> (out: String)
    ensures
        out@ == spec_validation_html(*result, path@),
{
    let mut out = String::from_str(
        "<!DOCTYPE html>\n<html lang=\"en\">\n<head>\n  <meta charset=\"UTF-8\">\n  <meta name=\"viewport\" content=\"width=device-width, initial-scale=1.0\">\n  <title>Validation Report - web-spec</title>\n  <style>\n    * { margin: 0; padding: 0; box-sizing: border-box; }\n    body { font-family: -apple-system, BlinkMacSystemFont, 'Segoe UI', Roboto, 'Helvetica Neue', Arial, sans-serif; background-color: #f5f7fa; color: #2c3e50; line-height: 1.6; }\n    .container { max-width: 1200px; margin: 0 auto; padding: 0 20px; }\n    .header { background: linear-gradient(135deg, #667eea 0%, #764ba2 100%); color: white; padding: 40px 0; }\n    .header h1 { font-size: 2.5em; margin-bottom: 10px; }\n    main { padding: 40px 0; }\n    .validation-report { background: white; padding: 30px; border-radius: 8px; }\n    .report-header { display: flex; justify-content: space-between; align-items: center; margin-bottom: 20px; padding-bottom: 20px; border-bottom: 2px solid #ecf0f1; }\n    .status-badge { display: inline-block; padding: 6px 12px; border-radius: 20px; font-weight: bold; }\n    .badge-valid { background-color: #d4edda; color: #155724; }\n    .badge-invalid { background-color: #f8d7da; color: #721c24; }\n    .file-info { background-color: #f8f9fa; border-left: 4px solid #667eea; padding: 15px; margin-bottom: 20px; }\n    .file-label { font-size: 0.85em; color: #7f8c8d; }\n    .file-path { font-weight: 600; word-break: break-all; }\n    .error-item, .warning-item { padding: 12px; margin-bottom: 10px; border-left: 4px solid #e74c3c; background-color: #fef2f2; }\n    .warning-item { border-left-color: #f39c12; background-color: #fffbf0; }\n    .error-message, .warning-message { font-weight: 600; }\n    .error-text { font-size: 0.9em; color: #555; }\n    .stat-card { background-color: #f8f9fa; padding: 15px; border-left: 4px solid #667eea; }\n    .stat-value.valid { color: #27ae60; }\n    .stat-value.invalid { color: #e74c3c; }\n    .footer { background-color: #2c3e50; color: #ecf0f1; text-align: center; padding: 20px 0; margin-top: 40px; }\n  </style>\n</head>\n<body>\n  <header class=\"header\">\n    <div class=\"container\">\n      <h1>Feature Validation Report</h1>\n    </div>\n  </header>\n  <main class=\"container\">\n    <div class=\"validation-report\">\n",
    );
    proof {
        assert(out@ =~= spec_html_head());
    }
    append_html_summary(&mut out, result, path);
    append_html_errors(&mut out, result);
    append_html_warnings(&mut out, result);
    out.append(
        "    </div>\n  </main>\n  <footer class=\"footer\">\n    <div class=\"container\">\n      <p>Generated by web-spec</p>\n    </div>\n  </footer>\n</body>\n</html>\n",
    );
    proof {
        assert(out@ =~= spec_validation_html(*result, path@));
    }
    out
}

} // verus!
