//! The stated laws of the error-wrapping discipline, proved once and for
//! all wrapped errors: the template of every rendered message, the
//! preserved category, and the fixed from/to order of dual-path messages.

use vstd::prelude::*;

use crate::errors::{
    is_wrapped_dual, is_wrapped_single, spec_dual_message, spec_dual_verb, spec_kind_verb,
    spec_single_message, ErrorKind, IoError, SourceDestErrorKind,
};

verus! {

/// For every operation kind: a wrapped single-path error renders as
/// `failed to <verb phrase> \`<path>\`` with the attempted path, and its
/// category equals the underlying error's category, so categorical error
/// handling by callers keeps working on the wrapped error.
pub proof fn lemma_single_wrap_template(
    wrapped: IoError,
    source: IoError,
    kind: ErrorKind,
    path: Seq<char>,
)
    requires
        is_wrapped_single(wrapped, source, kind, path),
    ensures
        wrapped.spec_message() == "failed to "@ + spec_kind_verb(kind) + " `"@ + path + "`"@,
        wrapped.category == source.category,
{
}

/// For every dual-path operation kind: the rendered message names the two
/// paths in the operation's documented from/to order. Nothing here depends
/// on the underlying error, so the order holds regardless of which of the
/// two sides made the platform call fail.
pub proof fn lemma_dual_wrap_order(
    wrapped: IoError,
    source: IoError,
    kind: SourceDestErrorKind,
    from: Seq<char>,
    to: Seq<char>,
)
    requires
        is_wrapped_dual(wrapped, source, kind, from, to),
    ensures
        wrapped.spec_message() == "failed to "@ + spec_dual_verb(kind) + " from "@ + from + " to "@
            + to,
        wrapped.category == source.category,
{
}

/// Every single-path message carries the attempted path itself, letter for
/// letter, between the verb phrase and the closing quote: the path occupies
/// a fixed segment of the rendered sentence, whatever the kind.
pub proof fn lemma_single_message_places_the_path(kind: ErrorKind, path: Seq<char>)
    ensures
        spec_single_message(kind, path).len() == 13 + spec_kind_verb(kind).len() + path.len(),
        spec_single_message(kind, path).subrange(
            12 + spec_kind_verb(kind).len() as int,
            12 + spec_kind_verb(kind).len() + path.len() as int,
        ) == path,
{
    reveal_strlit("failed to ");
    reveal_strlit(" `");
    reveal_strlit("`");
    assert(spec_single_message(kind, path).subrange(
        12 + spec_kind_verb(kind).len() as int,
        12 + spec_kind_verb(kind).len() + path.len() as int,
    ) =~= path);
}

/// Every dual-path message carries both paths letter for letter, the source
/// strictly before the destination: the source occupies the segment right
/// after `from`, the destination the tail after `to`, whatever the kind and
/// whichever side made the call fail.
pub proof fn lemma_dual_message_places_both_paths(
    kind: SourceDestErrorKind,
    from: Seq<char>,
    to: Seq<char>,
)
    ensures
        spec_dual_message(kind, from, to).len() == 20 + spec_dual_verb(kind).len() + from.len()
            + to.len(),
        spec_dual_message(kind, from, to).subrange(
            16 + spec_dual_verb(kind).len() as int,
            16 + spec_dual_verb(kind).len() + from.len() as int,
        ) == from,
        spec_dual_message(kind, from, to).subrange(
            20 + spec_dual_verb(kind).len() + from.len() as int,
            20 + spec_dual_verb(kind).len() + from.len() + to.len() as int,
        ) == to,
{
    reveal_strlit("failed to ");
    reveal_strlit(" from ");
    reveal_strlit(" to ");
    assert(spec_dual_message(kind, from, to).subrange(
        16 + spec_dual_verb(kind).len() as int,
        16 + spec_dual_verb(kind).len() + from.len() as int,
    ) =~= from);
    assert(spec_dual_message(kind, from, to).subrange(
        20 + spec_dual_verb(kind).len() + from.len() as int,
        20 + spec_dual_verb(kind).len() + from.len() + to.len() as int,
    ) =~= to);
}

/// A failed open renders as exactly `failed to open file \`<path>\``, with
/// the underlying error's category (for a missing file, the platform's
/// not-found category) untouched.
pub proof fn lemma_open_error_message(wrapped: IoError, source: IoError, path: Seq<char>)
    requires
        is_wrapped_single(wrapped, source, ErrorKind::OpenFile, path),
    ensures
        wrapped.spec_message() == "failed to open file `"@ + path + "`"@,
        wrapped.category == source.category,
{
    reveal_strlit("failed to ");
    reveal_strlit("open file");
    reveal_strlit(" `");
    reveal_strlit("failed to open file `");
    assert("failed to "@ + spec_kind_verb(ErrorKind::OpenFile) + " `"@ =~= "failed to open file `"@);
}

/// A failed copy renders as exactly `failed to copy file from <from> to
/// <to>`, naming the source before the destination.
pub proof fn lemma_copy_error_message(
    wrapped: IoError,
    source: IoError,
    from: Seq<char>,
    to: Seq<char>,
)
    requires
        is_wrapped_dual(wrapped, source, SourceDestErrorKind::Copy, from, to),
    ensures
        wrapped.spec_message() == "failed to copy file from "@ + from + " to "@ + to,
        wrapped.category == source.category,
{
    reveal_strlit("failed to ");
    reveal_strlit("copy file");
    reveal_strlit(" from ");
    reveal_strlit("failed to copy file from ");
    assert("failed to "@ + spec_dual_verb(SourceDestErrorKind::Copy) + " from "@
        =~= "failed to copy file from "@);
}

/// A failed directory iteration renders as exactly `failed to read
/// directory \`<path>\``, attributing the parent directory's path.
pub proof fn lemma_read_dir_error_message(wrapped: IoError, source: IoError, path: Seq<char>)
    requires
        is_wrapped_single(wrapped, source, ErrorKind::ReadDir, path),
    ensures
        wrapped.spec_message() == "failed to read directory `"@ + path + "`"@,
        wrapped.category == source.category,
{
    reveal_strlit("failed to ");
    reveal_strlit("read directory");
    reveal_strlit(" `");
    reveal_strlit("failed to read directory `");
    assert("failed to "@ + spec_kind_verb(ErrorKind::ReadDir) + " `"@
        =~= "failed to read directory `"@);
}

/// A failed single-level directory creation renders with the
/// create-directory verb phrase: exactly `failed to create directory
/// \`<path>\``.
pub proof fn lemma_create_dir_error_message(wrapped: IoError, source: IoError, path: Seq<char>)
    requires
        is_wrapped_single(wrapped, source, ErrorKind::CreateDir, path),
    ensures
        wrapped.spec_message() == "failed to create directory `"@ + path + "`"@,
        wrapped.category == source.category,
{
    reveal_strlit("failed to ");
    reveal_strlit("create directory");
    reveal_strlit(" `");
    reveal_strlit("failed to create directory `");
    assert("failed to "@ + spec_kind_verb(ErrorKind::CreateDir) + " `"@
        =~= "failed to create directory `"@);
}

} // verus!
