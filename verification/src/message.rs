//! The texts of the diagnostics.

use vstd::prelude::*;

verus! {

/// A key that is no option.
pub const UNKNOWN_OPTION: &'static str =
    "unexpected option; expected one of: `vis`, `rename_all`, `rename`, `default`, `trim`";

/// The key that `rename` has replaced.
pub const REMOVED_NAME: &'static str = "`name` has been removed; use `rename` instead";

/// A key without `=` after it.
pub const EXPECTED_EQUALS: &'static str = "expected `=`";

/// An option with neither a comma nor the end of the list after it.
pub const EXPECTED_COMMA: &'static str = "expected `,`";

/// A value that is no string literal where one is required.
pub const EXPECTED_STRING: &'static str = "expected string literal";

/// A value that is no boolean literal where one is required.
pub const EXPECTED_BOOL: &'static str = "expected boolean literal";

/// A value that is no expression where one is required.
pub const EXPECTED_EXPRESSION: &'static str = "expected an expression";

/// A string that names no supported case.
pub const UNKNOWN_CASE: &'static str =
    "Case must be one of lowercase, UPPERCASE, PascalCase, camelCase, snake_case, SCREAMING_SNAKE_CASE, kebab-case, SCREAMING-KEBAB-CASE.";

/// An option of a kind that the consumer does not take.
pub const NOT_APPLICABLE: &'static str = "This config option is not applicable here";

/// A further option, or attribute, of what may stand once.
pub const DUPLICATE_HERE: &'static str = "Duplicate declaration here";

/// A declaration without doc comments and without a default.
pub const MISSING_DOCS: &'static str = "Missing doc comments";

/// A doc attribute whose value is no string literal.
pub const DOC_NOT_STRING: &'static str = "Doc comment is not a string literal";

/// A macro invocation without a name.
pub const NO_DOCS_ON_MACRO: &'static str =
    "Doc comments are not supported on macro invocations";

/// An item of a kind that carries no documentation.
pub const NO_DOCS_ON_ITEM: &'static str = "Doc comments are not supported on this item";

/// Tokens that are no item of a known kind.
pub const NO_DOCS_ON_VERBATIM: &'static str =
    "Doc comments are not supported on items unknown to syn";

/// An item of an unknown kind.
pub const UNKNOWN_ITEM: &'static str =
    "This item is unknown to documented\nIf this item supports doc comments, consider submitting an issue or PR";

/// A type that is no enum where variants are to be documented.
pub const ENUM_ONLY: &'static str =
    "DocumentedVariants can only be used on enums.\nFor structs and unions, use DocumentedFields instead.";

/// The first of two members of one name.
pub const NAME_ONCE: &'static str = "This name can only be used for one member";

/// The second of two members of one name.
pub const DUPLICATE_NAME: &'static str = "Duplicate name here";

/// A key other than `trim` where `trim` is the only option.
pub const EXPECTED_TRIM: &'static str = "expected `trim`";

/// An item that is no function where a function is required.
pub const EXPECTED_FN: &'static str = "expected `fn`";

} // verus!
