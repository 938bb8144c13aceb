//! The autocorrection engine: inspects an error and proposes an automated
//! fix or actionable remediation. A fix embedded by a diagnostic tool takes
//! priority; otherwise the error's category drives a heuristic. The engine
//! only proposes; nothing is executed here.
//!
//! Paths are treated as '/'-separated text: the segment before the last
//! slash is the parent, and a file name containing a dot after its first
//! character is taken to have an extension. Whether a path exists or names
//! a directory is read from the filesystem through [`crate::sys`], and the
//! contracts here hold for every answer those probes can give.

use vstd::prelude::*;

use crate::error::AklypseError;
use crate::error::IoErrorKind;
use crate::sys;
use crate::types::Autocorrection;
use crate::types::DiagnosticResult;
use crate::types::ErrorCategory;
use crate::types::FixDetails;
use crate::types::FixType;

verus! {

/// The parent of a '/'-separated path: the text before the last slash, the
/// root when the last slash leads, and nothing when there is no slash.
pub open spec fn spec_parent(s: Seq<char>) -> Option<Seq<char>> {
    match s.index_of_last('/') {
        Some(i) => if i == 0 {
            Some("/"@)
        } else {
            Some(s.subrange(0, i))
        },
        None => None,
    }
}

/// The last component of a '/'-separated path.
pub open spec fn spec_file_name(s: Seq<char>) -> Seq<char> {
    match s.index_of_last('/') {
        Some(i) => s.subrange(i + 1, s.len() as int),
        None => s,
    }
}

/// Whether the path's last component has an extension: a dot after its
/// first character.
pub open spec fn spec_has_extension(s: Seq<char>) -> bool {
    exists|j: int| 1 <= j < spec_file_name(s).len() && spec_file_name(s)[j] == '.'
}

/// The index of the last slash of the path, if any.
fn last_slash(s: &str) -> (r: Option<usize>)
    ensures
        match s@.index_of_last('/') {
            Some(i) => r matches Some(ri) && ri as int == i,
            None => r is None,
        },
{
    proof {
        s@.index_of_last_ensures('/');
    }
    let n = s.unicode_len();
    let mut i: usize = n;
    while i > 0
        invariant
            i <= n,
            n == s@.len(),
            forall|j: int| i <= j < n ==> s@[j] != '/',
        decreases i,
    {
        i = i - 1;
        if s.get_char(i) == '/' {
            proof {
                s@.index_of_last_ensures('/');
                assert(0 <= i < s@.len() && s@[i as int] == '/');
                assert(s@.contains('/'));
                let idx = s@.index_of_last('/')->0;
                if idx > i as int {
                    assert(s@[idx] != '/');
                } else if idx < i as int {
                    assert(s@[i as int] != '/');
                }
            }
            return Some(i);
        }
    }
    proof {
        assert(!s@.contains('/'));
    }
    None
}

/// The parent of the path under the library's convention, as text.
fn path_parent(s: &str) -> (r: Option<String>)
    ensures
        match spec_parent(s@) {
            Some(p) => r matches Some(rp) && rp@ == p,
            None => r is None,
        },
{
    proof {
        s@.index_of_last_ensures('/');
    }
    match last_slash(s) {
        Some(i) => {
            if i == 0 {
                Some("/".to_owned())
            } else {
                Some(s.substring_char(0, i).to_owned())
            }
        },
        None => None,
    }
}

/// Whether the path's last component has an extension under the library's
/// convention.
fn has_extension(s: &str) -> (r: bool)
    ensures
        r == spec_has_extension(s@),
{
    proof {
        s@.index_of_last_ensures('/');
    }
    let n = s.unicode_len();
    let start: usize = match last_slash(s) {
        Some(i) => i + 1,
        None => 0,
    };
    proof {
        assert(spec_file_name(s@) =~= s@.subrange(start as int, n as int));
    }
    if start >= n {
        return false;
    }
    let mut j: usize = start + 1;
    while j < n
        invariant
            start + 1 <= j,
            j <= n,
            n == s@.len(),
            spec_file_name(s@) =~= s@.subrange(start as int, n as int),
            forall|k: int| start + 1 <= k < j ==> s@[k] != '.',
        decreases n - j,
    {
        if s.get_char(j) == '.' {
            proof {
                assert(spec_file_name(s@)[j - start] == s@[j as int]);
            }
            return true;
        }
        j = j + 1;
    }
    proof {
        assert forall|k: int| 1 <= k < spec_file_name(s@).len() implies spec_file_name(s@)[k]
            != '.' by {
            assert(spec_file_name(s@)[k] == s@[start + k]);
        }
    }
    false
}

/// The suggested fixes joined by single newlines, in order.
pub open spec fn spec_join_newline(items: Seq<String>) -> Seq<char>
    decreases items.len(),
{
    if items.len() == 0 {
        Seq::empty()
    } else if items.len() == 1 {
        items[0]@
    } else {
        spec_join_newline(items.drop_last()) + "\n"@ + items.last()@
    }
}

/// Join strings with single newlines.
fn join_newline(items: &Vec<String>) -> (r: String)
    ensures
        r@ == spec_join_newline(items@),
{
    let n = items.len();
    if n == 0 {
        return String::new();
    }
    let mut r: String = items[0].clone();
    let mut i: usize = 1;
    proof {
        assert(items@.subrange(0, 1) =~= seq![items@[0]]);
        assert(r@ == spec_join_newline(items@.subrange(0, 1)));
    }
    while i < n
        invariant
            1 <= i <= n,
            n == items@.len(),
            r@ == spec_join_newline(items@.subrange(0, i as int)),
        decreases n - i,
    {
        proof {
            assert(items@.subrange(0, i + 1).drop_last() =~= items@.subrange(0, i as int));
            assert(items@.subrange(0, i + 1).last() == items@[i as int]);
        }
        r = r.concat("\n");
        let item = &items[i];
        r = r.concat(item.as_str());
        i = i + 1;
    }
    proof {
        assert(items@.subrange(0, n as int) =~= items@);
    }
    r
}

/// How many characters of the text are not newlines.
pub open spec fn spec_count_non_newline(s: Seq<char>) -> nat
    decreases s.len(),
{
    if s.len() == 0 {
        0
    } else {
        spec_count_non_newline(s.drop_last()) + if s.last() != '\n' {
            1nat
        } else {
            0nat
        }
    }
}

/// A character count never exceeds the text length.
proof fn lemma_count_non_newline_le_len(s: Seq<char>)
    ensures
        spec_count_non_newline(s) <= s.len(),
    decreases s.len(),
{
    if s.len() > 0 {
        lemma_count_non_newline_le_len(s.drop_last());
    }
}

/// Count the characters of the text that are not newlines.
fn count_non_newline(s: &str) -> (c: usize)
    ensures
        c == spec_count_non_newline(s@),
{
    let n = s.unicode_len();
    let mut c: usize = 0;
    let mut i: usize = 0;
    proof {
        assert(s@.subrange(0, 0).len() == 0);
    }
    while i < n
        invariant
            i <= n,
            n == s@.len(),
            c == spec_count_non_newline(s@.subrange(0, i as int)),
        decreases n - i,
    {
        proof {
            lemma_count_non_newline_le_len(s@.subrange(0, i as int));
            assert(s@.subrange(0, i + 1).drop_last() =~= s@.subrange(0, i as int));
            assert(s@.subrange(0, i + 1).last() == s@[i as int]);
        }
        if s.get_char(i) != '\n' {
            c = c + 1;
        }
        i = i + 1;
    }
    proof {
        assert(s@.subrange(0, n as int) =~= s@);
    }
    c
}

/// Whether a string equals the given text.
fn string_is(a: &String, lit: &str) -> (r: bool)
    ensures
        r == (a@ == lit@),
{
    let owned: String = lit.to_owned();
    a.eq(&owned)
}

/// The view of an optional string.
pub open spec fn opt_str_view(o: Option<String>) -> Option<Seq<char>> {
    match o {
        Some(s) => Some(s@),
        None => None,
    }
}

/// The shell command that creates the directory, parents included.
pub open spec fn spec_mkdir_cmd(parent: Seq<char>) -> Seq<char> {
    "mkdir -p \""@ + parent + "\""@
}

/// The shell command that creates the file.
pub open spec fn spec_touch_cmd(path: Seq<char>) -> Seq<char> {
    "touch \""@ + path + "\""@
}

/// The description of a missing-resource proposal.
pub open spec fn spec_not_found_description(rt: Seq<char>, id: Seq<char>) -> Seq<char> {
    "Resource type '"@ + rt + "' with identifier '"@ + id
        + "' not found. Consider creating it if it's a file/directory, or verify the path/name."@
}

/// The path text a description shows when no path is known.
pub open spec fn spec_path_or_unknown(path: Option<Seq<char>>) -> Seq<char> {
    match path {
        Some(p) => p,
        None => "<unknown_path>"@,
    }
}

/// The description of an I/O proposal.
pub open spec fn spec_io_description(op: Seq<char>, path: Option<Seq<char>>, msg: Seq<char>) -> Seq<
    char,
> {
    "I/O error during '"@ + op + "' on path '"@ + spec_path_or_unknown(path) + "': "@ + msg
        + ". Verify path, permissions, or disk space."@
}

/// The code snippet proposed for a missing path.
pub open spec fn spec_io_not_found_snippet(p: Seq<char>, op: Seq<char>) -> Seq<char> {
    "// Ensure path '"@ + p + "' exists before operation '"@ + op
        + "'\n// Or handle the NotFound error gracefully."@
}

/// The code snippet proposed for a permission failure.
pub open spec fn spec_permission_snippet(path: Option<Seq<char>>, op: Seq<char>) -> Seq<char> {
    "// Check permissions for path '"@ + spec_path_or_unknown(path) + "' for operation '"@ + op
        + "'"@
}

/// The description of a configuration proposal.
pub open spec fn spec_config_description(path: Option<Seq<char>>, msg: Seq<char>) -> Seq<char> {
    "Configuration issue for path '"@ + (match path {
        Some(p) => p,
        None => "<unknown_config>"@,
    }) + "': "@ + msg + ". Please review the configuration file structure and values."@
}

/// The review snippet proposed for a configuration failure.
pub open spec fn spec_config_snippet(msg: Seq<char>) -> Seq<char> {
    "# Review this configuration file for error related to: "@ + msg
        + "\n# Ensure all values are correctly formatted and all required fields are present."@
}

/// Where the replaced span ends: the column plus the length of the
/// replacement text without newlines, at least one character wide, clamped
/// to the machine limit. A heuristic span, chosen because the engine lacks
/// a real syntax tree.
pub open spec fn spec_span_end(column: u32, text_len: nat) -> int {
    let extra: int = if text_len == 0 {
        1
    } else {
        text_len as int
    };
    if column + extra <= usize::MAX as int {
        column + extra
    } else {
        usize::MAX as int
    }
}

/// What the engine proposes for an error whose diagnostic carries
/// suggested fixes: apply them as a text replacement at the primary
/// location, with the fixes joined by newlines as the replacement text.
pub open spec fn diagnostic_suggestion(d: DiagnosticResult, a: Autocorrection) -> bool {
    &&& a.description@ == "Apply fix suggested by diagnostic tool."@
    &&& a.fix_type == FixType::TextReplacement
    &&& a.confidence == 85
    &&& a.diff_suggestion is None
    &&& a.commands_to_apply@.len() == 0
    &&& a.targets_error_code == d.diagnostic_code
    &&& match d.primary_location {
        Some(loc) => (a.details matches Some(
            FixDetails::TextReplace {
                file_path,
                line_start,
                column_start,
                line_end,
                column_end,
                original_text_snippet,
                replacement_text,
            },
        ) && file_path == loc.file && line_start as int == loc.line as int && column_start as int
            == loc.column as int && line_end as int == loc.line as int && column_end as int
            == spec_span_end(
            loc.column,
            spec_count_non_newline(spec_join_newline(d.suggested_fixes@)),
        ) && original_text_snippet == d.original_message && replacement_text@ == spec_join_newline(
            d.suggested_fixes@,
        )),
        None => a.details is None,
    }
}

/// The commands proposed for a missing file: create the parent directory
/// first when it is missing, then the file.
pub open spec fn spec_not_found_commands(id: Seq<char>, mkdir_parent: Option<Seq<char>>) -> Seq<
    Seq<char>,
> {
    match mkdir_parent {
        Some(p) => seq![spec_mkdir_cmd(p), spec_touch_cmd(id)],
        None => seq![spec_touch_cmd(id)],
    }
}

/// What the engine proposes for a missing resource: for a file or path,
/// commands that create it; for any other resource type, manual
/// intervention with the same description.
pub open spec fn not_found_suggestion(
    rt: Seq<char>,
    id: Seq<char>,
    mkdir_parent: Option<Seq<char>>,
    a: Autocorrection,
) -> bool {
    let applies = rt == "file"@ || rt == "path"@;
    let cmds = spec_not_found_commands(id, mkdir_parent);
    &&& a.description@ == spec_not_found_description(rt, id)
    &&& a.confidence == 70
    &&& a.diff_suggestion is None
    &&& (a.targets_error_code matches Some(c) && c@ == "NotFound"@)
    &&& if applies {
        &&& a.fix_type == FixType::ExecuteCommand
        &&& a.commands_to_apply@.map_values(|s: String| s@) == cmds
        &&& (a.details matches Some(
            FixDetails::ExecuteCommand { command, args, working_directory },
        ) && command@ == cmds[0] && args@.map_values(|s: String| s@) == cmds.drop_first()
            && working_directory is None)
    } else {
        &&& a.fix_type == FixType::ManualInterventionRequired
        &&& a.commands_to_apply@.len() == 0
        &&& a.details is None
    }
}

/// What the engine proposes for an I/O error, by the kind of the wrapped
/// foreign error: commands that create a missing path (a directory when
/// the path looks like one, else the file with its parent), a permissions
/// review for a denied operation, and information only otherwise.
pub open spec fn io_suggestion(
    kind: IoErrorKind,
    msg: Seq<char>,
    path: Option<Seq<char>>,
    op: Seq<char>,
    dir_like: bool,
    mkdir_parent: Option<Seq<char>>,
    a: Autocorrection,
) -> bool {
    &&& a.description@ == spec_io_description(op, path, msg)
    &&& a.confidence == 65
    &&& a.diff_suggestion is None
    &&& (a.targets_error_code matches Some(c) && c@ == "Io"@)
    &&& match kind {
        IoErrorKind::NotFound => {
            &&& a.fix_type == FixType::ExecuteCommand
            &&& match path {
                Some(p) => {
                    &&& (a.details matches Some(
                        FixDetails::SuggestCodeChange {
                            file_path,
                            line_hint,
                            suggested_code_snippet,
                            explanation,
                        },
                    ) && file_path@ == p && line_hint == 0 && suggested_code_snippet@
                        == spec_io_not_found_snippet(p, op) && explanation@
                        == "The file or directory specified in the operation was not found at the given path."@)
                    &&& a.commands_to_apply@.map_values(|s: String| s@) == (if dir_like {
                        seq![spec_mkdir_cmd(p)]
                    } else {
                        spec_not_found_commands(p, mkdir_parent)
                    })
                },
                None => {
                    &&& a.details is None
                    &&& a.commands_to_apply@.len() == 0
                },
            }
        },
        IoErrorKind::PermissionDenied => {
            &&& a.fix_type == FixType::ConfigurationChange
            &&& a.commands_to_apply@.len() == 0
            &&& (a.details matches Some(
                FixDetails::SuggestCodeChange {
                    file_path,
                    line_hint,
                    suggested_code_snippet,
                    explanation,
                },
            ) && file_path@ == (match path {
                Some(p) => p,
                None => "unknown_file_causing_permission_error"@,
            }) && line_hint == 0 && suggested_code_snippet@ == spec_permission_snippet(path, op)
                && explanation@
                == "The application does not have the necessary permissions to perform the I/O operation."@)
        },
        _ => {
            &&& a.fix_type == FixType::Information
            &&& a.commands_to_apply@.len() == 0
            &&& a.details is None
        },
    }
}

/// What the engine proposes for a configuration error: review the named
/// configuration file, or the conventional one when no path is known.
pub open spec fn config_suggestion(
    msg: Seq<char>,
    path: Option<Seq<char>>,
    a: Autocorrection,
) -> bool {
    &&& a.description@ == spec_config_description(path, msg)
    &&& a.fix_type == FixType::ConfigurationChange
    &&& a.confidence == 70
    &&& a.diff_suggestion is None
    &&& a.commands_to_apply@.len() == 0
    &&& (a.targets_error_code matches Some(c) && c@ == "Configuration"@)
    &&& (a.details matches Some(
        FixDetails::SuggestCodeChange { file_path, line_hint, suggested_code_snippet, explanation },
    ) && file_path@ == (match path {
        Some(p) => p,
        None => "config.toml"@,
    }) && line_hint == 1 && suggested_code_snippet@ == spec_config_snippet(msg) && explanation@
        == "Configuration files require specific syntax, valid values, and all mandatory fields to be present."@)
}

/// The resource type and identifier the engine reads from an error of the
/// missing-resource category; a wrapped error hides its fields.
pub open spec fn spec_nf_fields(e: AklypseError) -> (Seq<char>, Seq<char>) {
    match e {
        AklypseError::NotFound { resource_type, identifier, .. } => (resource_type@, identifier@),
        _ => ("unknown resource"@, "unknown identifier"@),
    }
}

/// The kind, message, path and operation the engine reads from an error of
/// the I/O category; a wrapped error hides its fields.
pub open spec fn spec_io_fields(e: AklypseError) -> (IoErrorKind, Seq<char>, Option<Seq<char>>, Seq<
    char,
>) {
    match e {
        AklypseError::Io { source, path, operation, .. } => (
            source.kind,
            source.message@,
            opt_str_view(path),
            operation@,
        ),
        _ => (IoErrorKind::Other, "Unknown I/O error"@, None, "<unknown_op>"@),
    }
}

/// The message and path the engine reads from an error of the
/// configuration category; a wrapped error hides its fields.
pub open spec fn spec_config_fields(e: AklypseError) -> (Seq<char>, Option<Seq<char>>) {
    match e {
        AklypseError::Config { message, path, .. } => (message@, opt_str_view(path)),
        _ => ("Unknown configuration error"@, None),
    }
}

/// Whether the error's outermost rich context carries a diagnostic with at
/// least one suggested fix.
pub open spec fn spec_has_diag_fixes(e: AklypseError) -> bool {
    e.spec_diagnostic_info() matches Some(d) && d.suggested_fixes@.len() > 0
}

/// The engine's whole contract. An embedded diagnostic with fixes wins;
/// otherwise the category decides, and a category outside NotFound, Io and
/// Configuration yields nothing. The filesystem probes (whether a parent
/// exists, whether a path is a directory) are existentially quantified:
/// the proposal is exact for every answer the filesystem can give, with
/// the mkdir target tied to the path's parent and a path without an
/// extension always treated as directory-like.
pub open spec fn suggestion_ok(e: AklypseError, r: Option<Autocorrection>) -> bool {
    if spec_has_diag_fixes(e) {
        r matches Some(a) && diagnostic_suggestion(e.spec_diagnostic_info()->0, a)
    } else if e.spec_category() == ErrorCategory::NotFound {
        let (rt, id) = spec_nf_fields(e);
        r matches Some(a) && (exists|mk: Option<Seq<char>>|
            (#[trigger] not_found_suggestion(rt, id, mk, a)) && (mk is None || (
            spec_parent(id) matches Some(p) && mk == Some(p))))
    } else if e.spec_category() == ErrorCategory::Io {
        let (kind, msg, path, op) = spec_io_fields(e);
        r matches Some(a) && (exists|dir_like: bool, mk: Option<Seq<char>>|
            (#[trigger] io_suggestion(kind, msg, path, op, dir_like, mk, a)) && (kind is NotFound
                ==> ((path is None ==> dir_like == false && mk is None) && (path matches Some(p)
                ==> ((!spec_has_extension(p) ==> dir_like) && (mk is None || (
            spec_parent(p) matches Some(pp) && mk == Some(pp))))))))
    } else if e.spec_category() == ErrorCategory::Configuration {
        let (msg, path) = spec_config_fields(e);
        r matches Some(a) && config_suggestion(msg, path, a)
    } else {
        r is None
    }
}

/// Build the shell command that creates the directory.
fn mkdir_cmd(parent: &str) -> (r: String)
    ensures
        r@ == spec_mkdir_cmd(parent@),
{
    let r = "mkdir -p \"".to_owned().concat(parent).concat("\"");
    proof {
        assert(r@ =~= spec_mkdir_cmd(parent@));
    }
    r
}

/// Build the shell command that creates the file.
fn touch_cmd(path: &str) -> (r: String)
    ensures
        r@ == spec_touch_cmd(path@),
{
    let r = "touch \"".to_owned().concat(path).concat("\"");
    proof {
        assert(r@ =~= spec_touch_cmd(path@));
    }
    r
}

/// The path text shown when none is known.
fn path_or_unknown(path: &Option<String>) -> (r: String)
    ensures
        r@ == spec_path_or_unknown(opt_str_view(*path)),
{
    match path {
        Some(p) => p.clone(),
        None => "<unknown_path>".to_owned(),
    }
}

/// Propose the fixes a diagnostic tool suggested, as a text replacement at
/// its primary location.
pub fn suggest_from_diagnostic(diag: &DiagnosticResult) -> (r: Autocorrection)
    ensures
        diagnostic_suggestion(*diag, r),
{
    let joined = join_newline(&diag.suggested_fixes);
    let details = match &diag.primary_location {
        Some(loc) => {
            let cnt = count_non_newline(joined.as_str());
            let extra = if cnt == 0 {
                1
            } else {
                cnt
            };
            let col = loc.column as usize;
            let column_end = if col > usize::MAX - extra {
                usize::MAX
            } else {
                col + extra
            };
            Some(
                FixDetails::TextReplace {
                    file_path: loc.file.clone(),
                    line_start: loc.line as usize,
                    column_start: col,
                    line_end: loc.line as usize,
                    column_end,
                    original_text_snippet: crate::error::clone_opt_string(&diag.original_message),
                    replacement_text: joined,
                },
            )
        },
        None => None,
    };
    Autocorrection {
        description: "Apply fix suggested by diagnostic tool.".to_owned(),
        fix_type: FixType::TextReplacement,
        confidence: 85,
        details,
        diff_suggestion: None,
        commands_to_apply: Vec::new(),
        targets_error_code: crate::error::clone_opt_string(&diag.diagnostic_code),
    }
}

/// Propose a fix for a missing resource: creation commands for a file or
/// path, manual intervention otherwise. `mkdir_parent` names the parent
/// directory to create first, when the filesystem showed it missing.
pub fn suggest_for_not_found(
    resource_type: String,
    identifier: String,
    mkdir_parent: Option<String>,
) -> (r: Autocorrection)
    ensures
        not_found_suggestion(resource_type@, identifier@, opt_str_view(mkdir_parent), r),
{
    let applies = string_is(&resource_type, "file") || string_is(&resource_type, "path");
    let description = "Resource type '".to_owned().concat(resource_type.as_str()).concat(
        "' with identifier '",
    ).concat(identifier.as_str()).concat(
        "' not found. Consider creating it if it's a file/directory, or verify the path/name.",
    );
    proof {
        assert(description@ =~= spec_not_found_description(resource_type@, identifier@));
    }
    let code = "NotFound".to_owned();
    if applies {
        let touch = touch_cmd(identifier.as_str());
        let mut commands: Vec<String> = Vec::new();
        let command0: String;
        let mut args: Vec<String> = Vec::new();
        match &mkdir_parent {
            Some(p) => {
                let mk = mkdir_cmd(p.as_str());
                command0 = mk.clone();
                commands.push(mk);
                commands.push(touch.clone());
                args.push(touch);
            },
            None => {
                command0 = touch.clone();
                commands.push(touch);
            },
        }
        proof {
            let cmds = spec_not_found_commands(identifier@, opt_str_view(mkdir_parent));
            assert(commands@.map_values(|s: String| s@) =~= cmds);
            assert(args@.map_values(|s: String| s@) =~= cmds.drop_first());
        }
        Autocorrection {
            description,
            fix_type: FixType::ExecuteCommand,
            confidence: 70,
            details: Some(
                FixDetails::ExecuteCommand { command: command0, args, working_directory: None },
            ),
            diff_suggestion: None,
            commands_to_apply: commands,
            targets_error_code: Some(code),
        }
    } else {
        Autocorrection {
            description,
            fix_type: FixType::ManualInterventionRequired,
            confidence: 70,
            details: None,
            diff_suggestion: None,
            commands_to_apply: Vec::new(),
            targets_error_code: Some(code),
        }
    }
}

/// Propose a fix for an I/O error, by the kind of the wrapped foreign
/// error. `dir_like` says whether the path looked like a directory (to the
/// filesystem, or for want of an extension); `mkdir_parent` names the
/// parent directory to create first, when the filesystem showed it
/// missing.
pub fn suggest_for_io(
    kind: IoErrorKind,
    message: String,
    path: Option<String>,
    operation: String,
    dir_like: bool,
    mkdir_parent: Option<String>,
) -> (r: Autocorrection)
    ensures
        io_suggestion(
            kind,
            message@,
            opt_str_view(path),
            operation@,
            dir_like,
            opt_str_view(mkdir_parent),
            r,
        ),
{
    let path_str = path_or_unknown(&path);
    let description = "I/O error during '".to_owned().concat(operation.as_str()).concat(
        "' on path '",
    ).concat(path_str.as_str()).concat("': ").concat(message.as_str()).concat(
        ". Verify path, permissions, or disk space.",
    );
    proof {
        assert(description@ =~= spec_io_description(operation@, opt_str_view(path), message@));
    }
    let code = "Io".to_owned();
    match kind {
        IoErrorKind::NotFound => {
            let mut commands: Vec<String> = Vec::new();
            let details = match &path {
                Some(p) => {
                    let snippet = "// Ensure path '".to_owned().concat(p.as_str()).concat(
                        "' exists before operation '",
                    ).concat(operation.as_str()).concat(
                        "'\n// Or handle the NotFound error gracefully.",
                    );
                    proof {
                        assert(snippet@ =~= spec_io_not_found_snippet(p@, operation@));
                    }
                    if dir_like {
                        commands.push(mkdir_cmd(p.as_str()));
                    } else {
                        match &mkdir_parent {
                            Some(parent) => {
                                commands.push(mkdir_cmd(parent.as_str()));
                            },
                            None => {},
                        }
                        commands.push(touch_cmd(p.as_str()));
                    }
                    Some(
                        FixDetails::SuggestCodeChange {
                            file_path: p.clone(),
                            line_hint: 0,
                            suggested_code_snippet: snippet,
                            explanation:
                                "The file or directory specified in the operation was not found at the given path.".to_owned(),
                        },
                    )
                },
                None => None,
            };
            proof {
                if path is Some {
                    let p = opt_str_view(path)->0;
                    if dir_like {
                        assert(commands@.map_values(|s: String| s@) =~= seq![spec_mkdir_cmd(p)]);
                    } else {
                        assert(commands@.map_values(|s: String| s@) =~= spec_not_found_commands(
                            p,
                            opt_str_view(mkdir_parent),
                        ));
                    }
                }
            }
            Autocorrection {
                description,
                fix_type: FixType::ExecuteCommand,
                confidence: 65,
                details,
                diff_suggestion: None,
                commands_to_apply: commands,
                targets_error_code: Some(code),
            }
        },
        IoErrorKind::PermissionDenied => {
            let snippet = "// Check permissions for path '".to_owned().concat(
                path_str.as_str(),
            ).concat("' for operation '").concat(operation.as_str()).concat("'");
            proof {
                assert(snippet@ =~= spec_permission_snippet(opt_str_view(path), operation@));
            }
            let file_path = match &path {
                Some(p) => p.clone(),
                None => "unknown_file_causing_permission_error".to_owned(),
            };
            Autocorrection {
                description,
                fix_type: FixType::ConfigurationChange,
                confidence: 65,
                details: Some(
                    FixDetails::SuggestCodeChange {
                        file_path,
                        line_hint: 0,
                        suggested_code_snippet: snippet,
                        explanation:
                            "The application does not have the necessary permissions to perform the I/O operation.".to_owned(),
                    },
                ),
                diff_suggestion: None,
                commands_to_apply: Vec::new(),
                targets_error_code: Some(code),
            }
        },
        _ => Autocorrection {
            description,
            fix_type: FixType::Information,
            confidence: 65,
            details: None,
            diff_suggestion: None,
            commands_to_apply: Vec::new(),
            targets_error_code: Some(code),
        },
    }
}

/// Propose a review of the configuration file named by the error, or of
/// the conventional one when no path is known.
pub fn suggest_for_config(message: String, path: Option<String>) -> (r: Autocorrection)
    ensures
        config_suggestion(message@, opt_str_view(path), r),
{
    let shown = match &path {
        Some(p) => p.clone(),
        None => "<unknown_config>".to_owned(),
    };
    let description = "Configuration issue for path '".to_owned().concat(shown.as_str()).concat(
        "': ",
    ).concat(message.as_str()).concat(
        ". Please review the configuration file structure and values.",
    );
    proof {
        assert(description@ =~= spec_config_description(opt_str_view(path), message@));
    }
    let snippet = "# Review this configuration file for error related to: ".to_owned().concat(
        message.as_str(),
    ).concat("\n# Ensure all values are correctly formatted and all required fields are present.");
    proof {
        assert(snippet@ =~= spec_config_snippet(message@));
    }
    let target_file = match &path {
        Some(p) => p.clone(),
        None => "config.toml".to_owned(),
    };
    Autocorrection {
        description,
        fix_type: FixType::ConfigurationChange,
        confidence: 70,
        details: Some(
            FixDetails::SuggestCodeChange {
                file_path: target_file,
                line_hint: 1,
                suggested_code_snippet: snippet,
                explanation:
                    "Configuration files require specific syntax, valid values, and all mandatory fields to be present.".to_owned(),
            },
        ),
        diff_suggestion: None,
        commands_to_apply: Vec::new(),
        targets_error_code: Some("Configuration".to_owned()),
    }
}

/// Main struct for the autocorrection capabilities: analyzes errors of the
/// library to provide potential automated fixes or actionable suggestions.
#[derive(Debug)]
pub struct Decrust {}

impl Decrust {
    /// Creates a new engine.
    pub fn new() -> (r: Self) {
        Decrust {  }
    }

    /// Suggests a potential autocorrection for a given error: a fix
    /// embedded by a diagnostic tool first, else a category-driven
    /// heuristic, else nothing. The source-code context is reserved for
    /// future use.
    #[verifier::rlimit(100)]
    #[verifier::spinoff_prover]
    pub fn suggest_autocorrection(
        &self,
        error: &AklypseError,
        _source_code_context: Option<&str>,
    ) -> (r: Option<Autocorrection>)
        ensures
            suggestion_ok(*error, r),
    {
        if let Some(diag) = error.get_diagnostic_info() {
            if diag.suggested_fixes.len() > 0 {
                let a = suggest_from_diagnostic(diag);
                proof {
                    assert(suggestion_ok(*error, Some(a)));
                }
                return Some(a);
            }
        }
        match error.category() {
            ErrorCategory::NotFound => {
                let (rt, id) = match error {
                    AklypseError::NotFound { resource_type, identifier, .. } => (
                        resource_type.clone(),
                        identifier.clone(),
                    ),
                    _ => ("unknown resource".to_owned(), "unknown identifier".to_owned()),
                };
                let applies = string_is(&rt, "file") || string_is(&rt, "path");
                let mkdir_parent: Option<String> = if applies {
                    match path_parent(id.as_str()) {
                        Some(parent) => {
                            if !sys::path_exists(parent.as_str()) {
                                Some(parent)
                            } else {
                                None
                            }
                        },
                        None => None,
                    }
                } else {
                    None
                };
                let a = suggest_for_not_found(rt, id, mkdir_parent);
                proof {
                    let fields = spec_nf_fields(*error);
                    assert(fields.0 == rt@ && fields.1 == id@);
                    assert(not_found_suggestion(fields.0, fields.1, opt_str_view(mkdir_parent), a));
                    assert(suggestion_ok(*error, Some(a)));
                }
                Some(a)
            },
            ErrorCategory::Io => {
                match error {
                    AklypseError::Io { source, path, operation, .. } => {
                        let (dir_like, mkdir_parent): (bool, Option<String>) = match path {
                            Some(p) => {
                                if matches!(source.kind, IoErrorKind::NotFound) {
                                    let dl = sys::path_is_dir(p.as_str()) || !has_extension(
                                        p.as_str(),
                                    );
                                    let mk = match path_parent(p.as_str()) {
                                        Some(parent) => {
                                            if !sys::path_exists(parent.as_str()) {
                                                Some(parent)
                                            } else {
                                                None
                                            }
                                        },
                                        None => None,
                                    };
                                    (dl, mk)
                                } else {
                                    (false, None)
                                }
                            },
                            None => (false, None),
                        };
                        let a = suggest_for_io(
                            source.kind,
                            source.message.clone(),
                            crate::error::clone_opt_string(path),
                            operation.clone(),
                            dir_like,
                            mkdir_parent,
                        );
                        proof {
                            let fields = spec_io_fields(*error);
                            assert(fields.0 == source.kind && fields.1 == source.message@
                                && fields.2 == opt_str_view(*path) && fields.3 == operation@);
                            assert(io_suggestion(
                                fields.0,
                                fields.1,
                                fields.2,
                                fields.3,
                                dir_like,
                                opt_str_view(mkdir_parent),
                                a,
                            ));
                            assert(suggestion_ok(*error, Some(a)));
                        }
                        Some(a)
                    },
                    _ => {
                        let a = suggest_for_io(
                            IoErrorKind::Other,
                            "Unknown I/O error".to_owned(),
                            None,
                            "<unknown_op>".to_owned(),
                            false,
                            None,
                        );
                        proof {
                            let fields = spec_io_fields(*error);
                            assert(fields.0 == IoErrorKind::Other && fields.1
                                == "Unknown I/O error"@ && fields.2 == None::<Seq<char>>
                                && fields.3 == "<unknown_op>"@);
                            assert(io_suggestion(
                                fields.0,
                                fields.1,
                                fields.2,
                                fields.3,
                                false,
                                None::<Seq<char>>,
                                a,
                            ));
                            assert(suggestion_ok(*error, Some(a)));
                        }
                        Some(a)
                    },
                }
            },
            ErrorCategory::Configuration => {
                let (msg, path) = match error {
                    AklypseError::Config { message, path, .. } => (
                        message.clone(),
                        crate::error::clone_opt_string(path),
                    ),
                    _ => ("Unknown configuration error".to_owned(), None),
                };
                let a = suggest_for_config(msg, path);
                proof {
                    assert(suggestion_ok(*error, Some(a)));
                }
                Some(a)
            },
            _ => {
                proof {
                    assert(suggestion_ok(*error, None::<Autocorrection>));
                }
                None
            },
        }
    }
}

impl Default for Decrust {
    /// A fresh engine.
    fn default() -> Self {
        Decrust {  }
    }
}

/// Extends error types with autocorrection capabilities, backed by the
/// engine.
pub trait AutocorrectableError {
    /// Suggests a potential autocorrection for this error.
    fn suggest_autocorrection(
        &self,
        decrust_engine: &Decrust,
        source_code_context: Option<&str>,
    ) -> Option<Autocorrection>;

    /// Retrieves diagnostic information if available within the error
    /// structure.
    fn get_diagnostic_info(&self) -> Option<&DiagnosticResult>;
}

impl AutocorrectableError for AklypseError {
    /// Delegates to the engine; the same contract holds.
    fn suggest_autocorrection(
        &self,
        decrust_engine: &Decrust,
        source_code_context: Option<&str>,
    ) -> (r: Option<Autocorrection>)
        ensures
            suggestion_ok(*self, r),
    {
        decrust_engine.suggest_autocorrection(self, source_code_context)
    }

    /// The diagnostic embedded in the outermost rich context, if any.
    fn get_diagnostic_info(&self) -> (r: Option<&DiagnosticResult>)
        ensures
            match self.spec_diagnostic_info() {
                Some(d) => r matches Some(rd) && *rd == d,
                None => r is None,
            },
    {
        AklypseError::get_diagnostic_info(self)
    }
}

} // verus!
