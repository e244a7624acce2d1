//! Diagnostics and their per-compilation accumulator.

use vstd::prelude::*;

verus! {

/// A position in the source text of one translation unit.
#[derive(Clone, Copy, Debug, PartialEq, Eq, Structural)]
pub struct Location {
    pub file: u32,
    pub line: u32,
    pub column: u32,
    pub offset: usize,
}

/// Whether a diagnostic blocks later stages or only informs.
#[derive(Clone, Copy, Debug, PartialEq, Eq, Structural)]
pub enum Severity {
    Error,
    Warning,
}

/// What a diagnostic reports.
#[derive(Clone, Copy, Debug, PartialEq, Eq, Structural)]
pub enum DiagCode {
    MalformedLiteral,
    UnterminatedString,
    UnterminatedChar,
    UnterminatedComment,
    InvalidCharacter,
    UnexpectedToken,
    MissingToken,
    UndeclaredIdentifier,
    Redefinition,
    TypeMismatch,
    IncompleteType,
    InvalidLvalue,
    NotConstant,
    DivisionByZero,
    SignedOverflow,
    LossyConversion,
}

impl DiagCode {
    /// The severity with which a code is always reported.
    pub open spec fn severity_of(self) -> Severity {
        match self {
            DiagCode::SignedOverflow | DiagCode::LossyConversion => Severity::Warning,
            _ => Severity::Error,
        }
    }

    /// The message text of a code.
    pub open spec fn text(self) -> Seq<char> {
        match self {
            DiagCode::MalformedLiteral => "malformed literal"@,
            DiagCode::UnterminatedString => "unterminated string literal"@,
            DiagCode::UnterminatedChar => "unterminated character literal"@,
            DiagCode::UnterminatedComment => "unterminated comment"@,
            DiagCode::InvalidCharacter => "invalid character in source"@,
            DiagCode::UnexpectedToken => "unexpected token"@,
            DiagCode::MissingToken => "missing expected token"@,
            DiagCode::UndeclaredIdentifier => "use of undeclared identifier"@,
            DiagCode::Redefinition => "redefinition with an incompatible type"@,
            DiagCode::TypeMismatch => "type mismatch with no valid conversion"@,
            DiagCode::IncompleteType => "use of an incomplete type"@,
            DiagCode::InvalidLvalue => "expression is not assignable"@,
            DiagCode::NotConstant => "expression is not a compile-time constant"@,
            DiagCode::DivisionByZero => "division by zero in a constant expression"@,
            DiagCode::SignedOverflow => "signed overflow in a constant expression"@,
            DiagCode::LossyConversion => "implicit conversion loses precision"@,
        }
    }

    pub fn severity(self) -> (s: Severity)
        ensures
            s == self.severity_of(),
    {
        match self {
            DiagCode::SignedOverflow | DiagCode::LossyConversion => Severity::Warning,
            _ => Severity::Error,
        }
    }

    pub fn message(self) -> (s: &'static str)
        ensures
            s@ == self.text(),
    {
        match self {
            DiagCode::MalformedLiteral => "malformed literal",
            DiagCode::UnterminatedString => "unterminated string literal",
            DiagCode::UnterminatedChar => "unterminated character literal",
            DiagCode::UnterminatedComment => "unterminated comment",
            DiagCode::InvalidCharacter => "invalid character in source",
            DiagCode::UnexpectedToken => "unexpected token",
            DiagCode::MissingToken => "missing expected token",
            DiagCode::UndeclaredIdentifier => "use of undeclared identifier",
            DiagCode::Redefinition => "redefinition with an incompatible type",
            DiagCode::TypeMismatch => "type mismatch with no valid conversion",
            DiagCode::IncompleteType => "use of an incomplete type",
            DiagCode::InvalidLvalue => "expression is not assignable",
            DiagCode::NotConstant => "expression is not a compile-time constant",
            DiagCode::DivisionByZero => "division by zero in a constant expression",
            DiagCode::SignedOverflow => "signed overflow in a constant expression",
            DiagCode::LossyConversion => "implicit conversion loses precision",
        }
    }
}

/// One recorded error or warning.
#[derive(Clone, Copy, Debug, PartialEq, Eq, Structural)]
pub struct Diagnostic {
    pub severity: Severity,
    pub code: DiagCode,
    pub location: Location,
}

/// The accumulator of one compilation: errors and warnings, each in the
/// order in which they were recorded.
pub struct ErrorHandler {
    errors: Vec<Diagnostic>,
    warnings: Vec<Diagnostic>,
}

impl ErrorHandler {
    /// The recorded errors, oldest first.
    pub closed spec fn errors(&self) -> Seq<Diagnostic> {
        self.errors@
    }

    /// The recorded warnings, oldest first.
    pub closed spec fn warnings(&self) -> Seq<Diagnostic> {
        self.warnings@
    }

    pub fn new() -> (h: ErrorHandler)
        ensures
            h.errors() == Seq::<Diagnostic>::empty(),
            h.warnings() == Seq::<Diagnostic>::empty(),
    {
        ErrorHandler { errors: Vec::new(), warnings: Vec::new() }
    }

    /// Records an error at the end of the error sequence.
    pub fn error(&mut self, code: DiagCode, location: Location)
        ensures
            final(self).errors() == old(self).errors().push(
                (Diagnostic { severity: Severity::Error, code, location }),
            ),
            final(self).warnings() == old(self).warnings(),
    {
        self.errors.push(Diagnostic { severity: Severity::Error, code, location });
    }

    /// Records a warning at the end of the warning sequence.
    pub fn warn(&mut self, code: DiagCode, location: Location)
        ensures
            final(self).warnings() == old(self).warnings().push(
                (Diagnostic { severity: Severity::Warning, code, location }),
            ),
            final(self).errors() == old(self).errors(),
    {
        self.warnings.push(Diagnostic { severity: Severity::Warning, code, location });
    }

    /// Records a diagnostic in the sequence that its code's severity names.
    pub fn report(&mut self, code: DiagCode, location: Location)
        ensures
            code.severity_of() == Severity::Error ==> {
                &&& final(self).errors() == old(self).errors().push(
                    (Diagnostic { severity: Severity::Error, code, location }),
                )
                &&& final(self).warnings() == old(self).warnings()
            },
            code.severity_of() == Severity::Warning ==> {
                &&& final(self).warnings() == old(self).warnings().push(
                    (Diagnostic { severity: Severity::Warning, code, location }),
                )
                &&& final(self).errors() == old(self).errors()
            },
    {
        match code.severity() {
            Severity::Error => self.error(code, location),
            Severity::Warning => self.warn(code, location),
        }
    }

    /// Whether no error has been recorded; warnings do not count.
    pub fn is_empty(&self) -> (b: bool)
        ensures
            b == (self.errors().len() == 0),
    {
        self.errors.len() == 0
    }

    pub fn error_count(&self) -> (n: usize)
        ensures
            n == self.errors().len(),
    {
        self.errors.len()
    }

    pub fn warning_count(&self) -> (n: usize)
        ensures
            n == self.warnings().len(),
    {
        self.warnings.len()
    }

    /// The error recorded at position `i`.
    pub fn error_at(&self, i: usize) -> (d: Diagnostic)
        requires
            i < self.errors().len(),
        ensures
            d == self.errors()[i as int],
    {
        self.errors[i]
    }

    /// The warning recorded at position `i`.
    pub fn warning_at(&self, i: usize) -> (d: Diagnostic)
        requires
            i < self.warnings().len(),
        ensures
            d == self.warnings()[i as int],
    {
        self.warnings[i]
    }

    /// Takes the oldest error out of the handler.
    pub fn pop_front(&mut self) -> (d: Option<Diagnostic>)
        ensures
            old(self).errors().len() == 0 ==> d.is_none() && final(self).errors() == old(
                self,
            ).errors(),
            old(self).errors().len() > 0 ==> d == Some(old(self).errors()[0])
                && final(self).errors() == old(self).errors().subrange(
                1,
                old(self).errors().len() as int,
            ),
            final(self).warnings() == old(self).warnings(),
    {
        if self.errors.len() == 0 {
            None
        } else {
            let d = self.errors.remove(0);
            Some(d)
        }
    }

    /// Empties the handler and hands out what it held: the errors, then the
    /// warnings.
    pub fn drain(&mut self) -> (out: (Vec<Diagnostic>, Vec<Diagnostic>))
        ensures
            out.0@ == old(self).errors(),
            out.1@ == old(self).warnings(),
            final(self).errors() == Seq::<Diagnostic>::empty(),
            final(self).warnings() == Seq::<Diagnostic>::empty(),
    {
        let mut errors: Vec<Diagnostic> = Vec::new();
        let mut warnings: Vec<Diagnostic> = Vec::new();
        std::mem::swap(&mut self.errors, &mut errors);
        std::mem::swap(&mut self.warnings, &mut warnings);
        (errors, warnings)
    }
}

} // verus!
