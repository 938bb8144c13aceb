//! Formatted error reports. The reporter renders a display chain — the
//! error's own message followed by the messages of its causes, outermost
//! first — in one of four formats. The rendering is informational only and
//! never machine-parsed by the rest of the library.

use vstd::prelude::*;

use crate::types::ErrorReportFormat;

verus! {

/// Configuration for the error reporter.
#[derive(Debug, Clone, Copy, PartialEq, Eq, Structural)]
pub struct ErrorReportConfig {
    pub include_message: bool,
    pub include_source_chain: bool,
    pub include_backtrace: bool,
    pub include_rich_context: bool,
    pub include_source_location: bool,
    pub include_severity: bool,
    pub format: ErrorReportFormat,
    pub max_chain_depth: Option<usize>,
    pub pretty_print_json: bool,
    pub include_diagnostics: bool,
}

impl ErrorReportConfig {
    /// The default configuration: everything included, plain format, no
    /// depth limit.
    pub open spec fn spec_default() -> ErrorReportConfig {
        ErrorReportConfig {
            include_message: true,
            include_source_chain: true,
            include_backtrace: true,
            include_rich_context: true,
            include_source_location: true,
            include_severity: true,
            format: ErrorReportFormat::Plain,
            max_chain_depth: None,
            pretty_print_json: true,
            include_diagnostics: true,
        }
    }
}

impl Default for ErrorReportConfig {
    /// The default configuration.
    fn default() -> (r: Self)
        ensures
            r == ErrorReportConfig::spec_default(),
    {
        ErrorReportConfig {
            include_message: true,
            include_source_chain: true,
            include_backtrace: true,
            include_rich_context: true,
            include_source_location: true,
            include_severity: true,
            format: ErrorReportFormat::Plain,
            max_chain_depth: None,
            pretty_print_json: true,
            include_diagnostics: true,
        }
    }
}

/// The cause lines of a plain report: one "Caused by:" line per cause, and
/// a hiding notice in place of the causes beyond the depth limit.
pub open spec fn spec_caused_by(causes: Seq<String>, remaining: Option<int>) -> Seq<char>
    decreases causes.len(),
{
    if causes.len() == 0 {
        Seq::empty()
    } else if remaining matches Some(rem) && rem <= 0 {
        "... (more causes hidden)\n"@
    } else {
        "Caused by: "@ + causes[0]@ + "\n"@ + spec_caused_by(
            causes.drop_first(),
            match remaining {
                Some(rem) => Some(rem - 1),
                None => None,
            },
        )
    }
}

/// A plain report: the error line, then the cause lines up to the depth
/// limit.
pub open spec fn spec_plain_report(chain: Seq<String>, max: Option<usize>) -> Seq<char>
    recommends
        chain.len() >= 1,
{
    "Error: "@ + chain[0]@ + "\n"@ + spec_caused_by(
        chain.drop_first(),
        match max {
            Some(m) => Some(m as int),
            None => None,
        },
    )
}

/// The message with every double quote escaped for JSON.
pub open spec fn spec_json_escape(s: Seq<char>) -> Seq<char>
    decreases s.len(),
{
    if s.len() == 0 {
        Seq::empty()
    } else {
        spec_json_escape(s.drop_last()) + (if s.last() == '"' {
            seq!['\\', '"']
        } else {
            seq![s.last()]
        })
    }
}

/// A JSON report: one object with the escaped message under the error key.
pub open spec fn spec_json_report(msg: Seq<char>) -> Seq<char> {
    "{\"error\": \""@ + spec_json_escape(msg) + "\"}\n"@
}

/// The message with every angle bracket escaped for HTML.
pub open spec fn spec_html_escape(s: Seq<char>) -> Seq<char>
    decreases s.len(),
{
    if s.len() == 0 {
        Seq::empty()
    } else {
        spec_html_escape(s.drop_last()) + (if s.last() == '<' {
            "&lt;"@
        } else if s.last() == '>' {
            "&gt;"@
        } else {
            seq![s.last()]
        })
    }
}

/// An HTML report: the escaped message in a preformatted error block.
pub open spec fn spec_html_report(msg: Seq<char>) -> Seq<char> {
    "<div class=\"error\"><pre>"@ + spec_html_escape(msg) + "</pre></div>\n"@
}

/// A Markdown report: the message in a fenced block under an error
/// heading.
pub open spec fn spec_markdown_report(msg: Seq<char>) -> Seq<char> {
    "## Error\n\n```\n"@ + msg + "\n```\n"@
}

/// What `report` renders for a chain under a configuration: the format
/// picks the rendering; only the plain format walks the cause chain, and
/// only when the configuration asks for it.
pub open spec fn spec_report(chain: Seq<String>, config: ErrorReportConfig) -> Seq<char>
    recommends
        chain.len() >= 1,
{
    match config.format {
        ErrorReportFormat::Plain => if config.include_source_chain {
            spec_plain_report(chain, config.max_chain_depth)
        } else {
            "Error: "@ + chain[0]@ + "\n"@
        },
        ErrorReportFormat::Json => spec_json_report(chain[0]@),
        ErrorReportFormat::Markdown => spec_markdown_report(chain[0]@),
        ErrorReportFormat::Html => spec_html_report(chain[0]@),
    }
}

/// Escape double quotes for JSON.
fn json_escape(s: &str) -> (r: String)
    ensures
        r@ == spec_json_escape(s@),
{
    let n = s.unicode_len();
    let mut out = String::new();
    let mut i: usize = 0;
    proof {
        assert(s@.subrange(0, 0).len() == 0);
    }
    while i < n
        invariant
            i <= n,
            n == s@.len(),
            out@ == spec_json_escape(s@.subrange(0, i as int)),
        decreases n - i,
    {
        proof {
            assert(s@.subrange(0, i + 1).drop_last() =~= s@.subrange(0, i as int));
            assert(s@.subrange(0, i + 1).last() == s@[i as int]);
        }
        let c = s.get_char(i);
        if c == '"' {
            out = out.concat("\\\"");
            proof {
                reveal_strlit("\\\"");
                assert(("\\\"")@ =~= seq!['\\', '"']);
            }
        } else {
            let piece = s.substring_char(i, i + 1);
            proof {
                assert(piece@ =~= seq![s@[i as int]]);
            }
            out = out.concat(piece);
        }
        i = i + 1;
    }
    proof {
        assert(s@.subrange(0, n as int) =~= s@);
    }
    out
}

/// Escape angle brackets for HTML.
fn html_escape(s: &str) -> (r: String)
    ensures
        r@ == spec_html_escape(s@),
{
    let n = s.unicode_len();
    let mut out = String::new();
    let mut i: usize = 0;
    proof {
        assert(s@.subrange(0, 0).len() == 0);
    }
    while i < n
        invariant
            i <= n,
            n == s@.len(),
            out@ == spec_html_escape(s@.subrange(0, i as int)),
        decreases n - i,
    {
        proof {
            assert(s@.subrange(0, i + 1).drop_last() =~= s@.subrange(0, i as int));
            assert(s@.subrange(0, i + 1).last() == s@[i as int]);
        }
        let c = s.get_char(i);
        if c == '<' {
            out = out.concat("&lt;");
        } else if c == '>' {
            out = out.concat("&gt;");
        } else {
            let piece = s.substring_char(i, i + 1);
            proof {
                assert(piece@ =~= seq![s@[i as int]]);
            }
            out = out.concat(piece);
        }
        i = i + 1;
    }
    proof {
        assert(s@.subrange(0, n as int) =~= s@);
    }
    out
}

/// Utility for generating formatted error reports from a display chain.
#[derive(Debug)]
pub struct ErrorReporter;

impl ErrorReporter {
    /// Creates a reporter.
    pub fn new() -> (r: Self) {
        ErrorReporter
    }

    /// Render the chain in the configured format.
    pub fn report(&self, chain: &Vec<String>, config: &ErrorReportConfig) -> (r: String)
        requires
            chain@.len() >= 1,
        ensures
            r@ == spec_report(chain@, *config),
    {
        match config.format {
            ErrorReportFormat::Plain => self.report_plain(chain, config),
            ErrorReportFormat::Json => self.report_json(chain, config),
            ErrorReportFormat::Markdown => self.report_markdown(chain, config),
            ErrorReportFormat::Html => self.report_html(chain, config),
        }
    }

    /// Render the chain in the configured format, as a string.
    pub fn report_to_string(&self, chain: &Vec<String>, config: &ErrorReportConfig) -> (r: String)
        requires
            chain@.len() >= 1,
        ensures
            r@ == spec_report(chain@, *config),
    {
        self.report(chain, config)
    }

    /// The plain rendering: the error line, then — when the configuration
    /// includes the source chain — one line per cause, hiding the causes
    /// beyond the depth limit.
    pub fn report_plain(&self, chain: &Vec<String>, config: &ErrorReportConfig) -> (r: String)
        requires
            chain@.len() >= 1,
        ensures
            config.include_source_chain ==> r@ == spec_plain_report(
                chain@,
                config.max_chain_depth,
            ),
            !config.include_source_chain ==> r@ == "Error: "@ + chain@[0]@ + "\n"@,
    {
        let first = &chain[0];
        let mut out = "Error: ".to_owned().concat(first.as_str()).concat("\n");
        proof {
            assert(out@ =~= "Error: "@ + chain@[0]@ + "\n"@);
        }
        if !config.include_source_chain {
            return out;
        }
        let n = chain.len();
        let mut i: usize = 1;
        let mut depth: usize = 0;
        proof {
            assert(chain@.subrange(1, n as int) =~= chain@.drop_first());
        }
        while i < n
            invariant
                config.include_source_chain,
                1 <= i <= n,
                n == chain@.len(),
                depth == i - 1,
                spec_plain_report(chain@, config.max_chain_depth) == out@ + spec_caused_by(
                    chain@.subrange(i as int, n as int),
                    match config.max_chain_depth {
                        Some(m) => Some(m - depth),
                        None => None,
                    },
                ),
            decreases n - i,
        {
            proof {
                assert(chain@.subrange(i as int, n as int).drop_first() =~= chain@.subrange(
                    i + 1,
                    n as int,
                ));
                assert(chain@.subrange(i as int, n as int)[0] == chain@[i as int]);
            }
            if let Some(m) = config.max_chain_depth {
                if depth >= m {
                    proof {
                        assert(spec_caused_by(
                            chain@.subrange(i as int, n as int),
                            Some(m - depth),
                        ) == "... (more causes hidden)\n"@);
                    }
                    out = out.concat("... (more causes hidden)\n");
                    return out;
                }
            }
            let cause = &chain[i];
            out = out.concat("Caused by: ").concat(cause.as_str()).concat("\n");
            depth = depth + 1;
            i = i + 1;
        }
        proof {
            assert(chain@.subrange(n as int, n as int).len() == 0);
            assert(out@ + Seq::<char>::empty() =~= out@);
        }
        out
    }

    /// The JSON rendering of the error's own message.
    pub fn report_json(&self, chain: &Vec<String>, config: &ErrorReportConfig) -> (r: String)
        requires
            chain@.len() >= 1,
        ensures
            r@ == spec_json_report(chain@[0]@),
    {
        let first = &chain[0];
        let escaped = json_escape(first.as_str());
        let r = "{\"error\": \"".to_owned().concat(escaped.as_str()).concat("\"}\n");
        proof {
            assert(r@ =~= spec_json_report(chain@[0]@));
        }
        r
    }

    /// The Markdown rendering of the error's own message.
    pub fn report_markdown(&self, chain: &Vec<String>, config: &ErrorReportConfig) -> (r: String)
        requires
            chain@.len() >= 1,
        ensures
            r@ == spec_markdown_report(chain@[0]@),
    {
        let first = &chain[0];
        let r = "## Error\n\n```\n".to_owned().concat(first.as_str()).concat("\n```\n");
        proof {
            assert(r@ =~= spec_markdown_report(chain@[0]@));
        }
        r
    }

    /// The HTML rendering of the error's own message.
    pub fn report_html(&self, chain: &Vec<String>, config: &ErrorReportConfig) -> (r: String)
        requires
            chain@.len() >= 1,
        ensures
            r@ == spec_html_report(chain@[0]@),
    {
        let first = &chain[0];
        let escaped = html_escape(first.as_str());
        let r = "<div class=\"error\"><pre>".to_owned().concat(escaped.as_str()).concat(
            "</pre></div>\n",
        );
        proof {
            assert(r@ =~= spec_html_report(chain@[0]@));
        }
        r
    }
}

impl Default for ErrorReporter {
    /// A fresh reporter.
    fn default() -> Self {
        ErrorReporter
    }
}

} // verus!
