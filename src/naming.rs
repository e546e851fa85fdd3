//! Output file naming.

use vstd::prelude::*;
use vstd::string::StrSliceExecFns;
use crate::error::FastResizeError;
use crate::format::{ImageFormat, spec_extension};
use crate::text::append;

verus! {

/// How output files are arranged in folders.
#[derive(Debug, Clone, Copy, PartialEq, Eq, Structural)]
pub enum FolderOrganization {
    Flat,
    ByDate,
    MirrorStructure,
    ByDimensions,
    ByFileSize,
}

/// How output file names are built from input names.
#[derive(Debug, Clone)]
pub struct NamingConfig {
    /// Text put before the name.
    pub prefix: Option<String>,
    /// Text put after the name, before the extension.
    pub suffix: Option<String>,
    /// Keep the input name as it is.
    pub keep_original: bool,
    pub folder_organization: FolderOrganization,
}

/// Index of the last `c` in `s`, or -1.
pub open spec fn spec_last_index_of(s: Seq<char>, c: char) -> int
    decreases s.len(),
{
    if s.len() == 0 {
        -1
    } else if s.last() == c {
        s.len() - 1
    } else {
        spec_last_index_of(s.drop_last(), c)
    }
}

/// The characters that may not appear in a prefix or suffix.
pub open spec fn spec_forbidden(c: char) -> bool {
    c == '/' || c == '\\' || c == ':' || c == '*' || c == '?' || c == '"' || c == '<' || c == '>' || c == '|'
}

/// Whether `s` holds a forbidden character.
pub open spec fn spec_has_forbidden(s: Seq<char>) -> bool {
    exists|i: int| 0 <= i < s.len() && spec_forbidden(#[trigger] s[i])
}

fn has_forbidden(s: &str) -> (r: bool)
    ensures
        r == spec_has_forbidden(s@),
{
    let n = s.unicode_len();
    let mut i: usize = 0;
    while i < n
        invariant
            n == s@.len(),
            i <= n,
            forall|j: int| 0 <= j < i ==> !spec_forbidden(#[trigger] s@[j]),
        decreases n - i,
    {
        let c = s.get_char(i);
        if c == '/' || c == '\\' || c == ':' || c == '*' || c == '?' || c == '"' || c == '<' || c == '>' || c == '|' {
            return true;
        }
        i = i + 1;
    }
    false
}

pub open spec fn spec_opt_text(s: Option<String>) -> Seq<char> {
    match s {
        Some(t) => t@,
        None => Seq::empty(),
    }
}

/// The output name for `input`: the input itself when names are kept; else
/// prefix, the part before the last dot, suffix, and the extension (that of
/// `format` if given, else the input's own) after a dot when it is not empty.
pub open spec fn spec_generate_filename(cfg: NamingConfig, input: Seq<char>, format: Option<ImageFormat>) -> Seq<char> {
    if cfg.keep_original {
        input
    } else {
        let dot = spec_last_index_of(input, '.');
        let name = if dot >= 0 { input.take(dot) } else { input };
        let original_ext = if dot >= 0 { input.skip(dot + 1) } else { Seq::empty() };
        let ext = match format {
            Some(f) => spec_extension(f),
            None => original_ext,
        };
        spec_opt_text(cfg.prefix) + name + spec_opt_text(cfg.suffix)
            + if ext.len() > 0 { seq!['.'] + ext } else { Seq::empty() }
    }
}

impl NamingConfig {
    /// No prefix, the suffix `_resized`, flat folders.
    pub fn new() -> (r: Self)
        ensures
            r.prefix is None,
            r.suffix matches Some(s) && s@ == "_resized"@,
            !r.keep_original,
            r.folder_organization == FolderOrganization::Flat,
    {
        NamingConfig {
            prefix: None,
            suffix: Some("_resized".to_owned()),
            keep_original: false,
            folder_organization: FolderOrganization::Flat,
        }
    }

    /// The output file name for `input_name` written as `output_format` (or
    /// in the input's own format).
    pub fn generate_filename(&self, input_name: &str, output_format: Option<ImageFormat>) -> (r: String)
        ensures
            r@ == spec_generate_filename(*self, input_name@, output_format),
    {
        if self.keep_original {
            return input_name.to_owned();
        }
        let n = input_name.unicode_len();
        let mut i: usize = n;
        assert(input_name@.take(n as int) =~= input_name@);
        while i > 0
            invariant
                n == input_name@.len(),
                i <= n,
                spec_last_index_of(input_name@, '.') == spec_last_index_of(input_name@.take(i as int), '.'),
            ensures
                i == 0 || input_name@[i - 1] == '.',
                spec_last_index_of(input_name@, '.') == spec_last_index_of(input_name@.take(i as int), '.'),
            decreases i,
        {
            if input_name.get_char(i - 1) == '.' {
                break;
            }
            assert(input_name@.take(i as int).drop_last() =~= input_name@.take(i - 1));
            i = i - 1;
        }
        proof {
            if i > 0 {
                assert(input_name@.take(i as int).last() == '.');
            }
        }
        let (name, original_ext) = if i > 0 {
            (input_name.substring_char(0, i - 1), input_name.substring_char(i, n))
        } else {
            (input_name, "")
        };
        proof {
            reveal_strlit("");
            reveal_strlit(".");
            let dot = spec_last_index_of(input_name@, '.');
            if i > 0 {
                assert(dot == i - 1);
                assert(name@ =~= input_name@.take(dot));
                assert(original_ext@ =~= input_name@.skip(dot + 1));
            } else {
                assert(dot == -1);
            }
        }
        let extension = match output_format {
            Some(f) => f.extension(),
            None => original_ext,
        };
        let mut out = String::new();
        match &self.prefix {
            Some(p) => append(&mut out, p.as_str()),
            None => {},
        }
        append(&mut out, name);
        match &self.suffix {
            Some(s) => append(&mut out, s.as_str()),
            None => {},
        }
        if extension.unicode_len() > 0 {
            append(&mut out, ".");
            append(&mut out, extension);
        }
        assert(out@ =~= spec_generate_filename(*self, input_name@, output_format));
        out
    }

    /// A prefix or suffix holding one of `/ \ : * ? " < > |` is rejected.
    pub fn validate(&self) -> (r: Result<(), FastResizeError>)
        ensures
            r is Ok <==> !spec_has_forbidden(spec_opt_text(self.prefix)) && !spec_has_forbidden(spec_opt_text(self.suffix)),
            spec_has_forbidden(spec_opt_text(self.prefix)) ==> (r matches Err(FastResizeError::InvalidParameters { message })
                && message@ == "Prefix contains invalid filename characters"@),
            !spec_has_forbidden(spec_opt_text(self.prefix)) && spec_has_forbidden(spec_opt_text(self.suffix)) ==>
                (r matches Err(FastResizeError::InvalidParameters { message })
                && message@ == "Suffix contains invalid filename characters"@),
    {
        match &self.prefix {
            Some(p) => {
                if has_forbidden(p.as_str()) {
                    return Err(FastResizeError::invalid_parameters("Prefix contains invalid filename characters".to_owned()));
                }
            },
            None => {},
        }
        match &self.suffix {
            Some(s) => {
                if has_forbidden(s.as_str()) {
                    return Err(FastResizeError::invalid_parameters("Suffix contains invalid filename characters".to_owned()));
                }
            },
            None => {},
        }
        Ok(())
    }
}

impl Default for NamingConfig {
    fn default() -> (r: Self)
        ensures
            r.prefix is None,
            r.suffix matches Some(s) && s@ == "_resized"@,
            !r.keep_original,
            r.folder_organization == FolderOrganization::Flat,
    {
        Self::new()
    }
}

} // verus!
