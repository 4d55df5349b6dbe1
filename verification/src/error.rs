use vstd::prelude::*;

use crate::text::{push_str, string_from_chars};

verus! {

/// Error payload shared with the frontend over IPC.
#[derive(Debug, Clone, PartialEq, Eq)]
pub struct StructuredError {
    pub code: String,
    pub message: String,
    pub context: Option<String>,
}

/// The kinds of failure of the capture pipeline.
#[derive(Debug, Clone, Copy, PartialEq, Eq, Structural)]
pub enum CaptureErrorKind {
    PermissionDenied,
    MonitorNotFound,
    CaptureFailure,
    ImageProcessingError,
    ClipboardError,
    StorageError,
    InvalidState,
    OverlayError,
    Cancelled,
    InvalidModel,
    InvalidCaptureMode,
    InternalError,
}

/// The stable machine-readable code of an error kind.
pub open spec fn kind_code(kind: CaptureErrorKind) -> Seq<char> {
    match kind {
        CaptureErrorKind::PermissionDenied => "PERMISSION_DENIED"@,
        CaptureErrorKind::MonitorNotFound => "MONITOR_NOT_FOUND"@,
        CaptureErrorKind::CaptureFailure => "CAPTURE_FAILURE"@,
        CaptureErrorKind::ImageProcessingError => "IMAGE_PROCESSING_ERROR"@,
        CaptureErrorKind::ClipboardError => "CLIPBOARD_ERROR"@,
        CaptureErrorKind::StorageError => "STORAGE_ERROR"@,
        CaptureErrorKind::InvalidState => "INVALID_STATE"@,
        CaptureErrorKind::OverlayError => "OVERLAY_ERROR"@,
        CaptureErrorKind::Cancelled => "CANCELLED"@,
        CaptureErrorKind::InvalidModel => "INVALID_MODEL"@,
        CaptureErrorKind::InvalidCaptureMode => "INVALID_CAPTURE_MODE"@,
        CaptureErrorKind::InternalError => "INTERNAL_ERROR"@,
    }
}

/// The default user-facing message of an error kind.
pub open spec fn kind_message(kind: CaptureErrorKind) -> Seq<char> {
    match kind {
        CaptureErrorKind::PermissionDenied =>
            "Permissao de captura de tela negada pelo sistema operacional."@,
        CaptureErrorKind::MonitorNotFound =>
            "Nenhum monitor foi detectado na posicao ativa do cursor."@,
        CaptureErrorKind::CaptureFailure => "Falha ao capturar a imagem da tela."@,
        CaptureErrorKind::ImageProcessingError => "Falha ao processar a imagem capturada."@,
        CaptureErrorKind::ClipboardError =>
            "Falha ao copiar a imagem para a area de transferencia."@,
        CaptureErrorKind::StorageError => "Falha ao salvar a imagem no armazenamento local."@,
        CaptureErrorKind::InvalidState =>
            "Operacao invalida para o estado atual do pipeline de captura."@,
        CaptureErrorKind::OverlayError => "Falha ao preparar a janela de overlay da captura."@,
        CaptureErrorKind::Cancelled => "A captura foi cancelada pelo usuario."@,
        CaptureErrorKind::InvalidModel => "Payload de captura invalido."@,
        CaptureErrorKind::InvalidCaptureMode => "Modo de captura invalido."@,
        CaptureErrorKind::InternalError => "Erro interno nao esperado no backend de captura."@,
    }
}

/// The view of an optional string.
pub open spec fn opt_view(o: Option<String>) -> Option<Seq<char>> {
    match o {
        Some(s) => Some(s@),
        None => None,
    }
}

/// `e` is the structured form of `kind` with its default message and the context `context`.
pub open spec fn kind_error_with_context(e: StructuredError, kind: CaptureErrorKind, context: Seq<char>) -> bool {
    &&& e.code@ == kind_code(kind)
    &&& e.message@ == kind_message(kind)
    &&& opt_view(e.context) == Some(context)
}

impl CaptureErrorKind {
    pub fn code(self) -> (r: &'static str)
        ensures
            r@ == kind_code(self),
    {
        match self {
            CaptureErrorKind::PermissionDenied => "PERMISSION_DENIED",
            CaptureErrorKind::MonitorNotFound => "MONITOR_NOT_FOUND",
            CaptureErrorKind::CaptureFailure => "CAPTURE_FAILURE",
            CaptureErrorKind::ImageProcessingError => "IMAGE_PROCESSING_ERROR",
            CaptureErrorKind::ClipboardError => "CLIPBOARD_ERROR",
            CaptureErrorKind::StorageError => "STORAGE_ERROR",
            CaptureErrorKind::InvalidState => "INVALID_STATE",
            CaptureErrorKind::OverlayError => "OVERLAY_ERROR",
            CaptureErrorKind::Cancelled => "CANCELLED",
            CaptureErrorKind::InvalidModel => "INVALID_MODEL",
            CaptureErrorKind::InvalidCaptureMode => "INVALID_CAPTURE_MODE",
            CaptureErrorKind::InternalError => "INTERNAL_ERROR",
        }
    }

    pub fn default_message(self) -> (r: &'static str)
        ensures
            r@ == kind_message(self),
    {
        match self {
            CaptureErrorKind::PermissionDenied =>
                "Permissao de captura de tela negada pelo sistema operacional.",
            CaptureErrorKind::MonitorNotFound =>
                "Nenhum monitor foi detectado na posicao ativa do cursor.",
            CaptureErrorKind::CaptureFailure => "Falha ao capturar a imagem da tela.",
            CaptureErrorKind::ImageProcessingError => "Falha ao processar a imagem capturada.",
            CaptureErrorKind::ClipboardError =>
                "Falha ao copiar a imagem para a area de transferencia.",
            CaptureErrorKind::StorageError => "Falha ao salvar a imagem no armazenamento local.",
            CaptureErrorKind::InvalidState =>
                "Operacao invalida para o estado atual do pipeline de captura.",
            CaptureErrorKind::OverlayError => "Falha ao preparar a janela de overlay da captura.",
            CaptureErrorKind::Cancelled => "A captura foi cancelada pelo usuario.",
            CaptureErrorKind::InvalidModel => "Payload de captura invalido.",
            CaptureErrorKind::InvalidCaptureMode => "Modo de captura invalido.",
            CaptureErrorKind::InternalError => "Erro interno nao esperado no backend de captura.",
        }
    }
}

impl StructuredError {
    pub fn new(code: &str, message: &str) -> (r: Self)
        ensures
            r.code@ == code@,
            r.message@ == message@,
            r.context is None,
    {
        StructuredError { code: code.to_owned(), message: message.to_owned(), context: None }
    }

    pub fn with_context(self, context: &str) -> (r: Self)
        ensures
            r.code == self.code,
            r.message == self.message,
            opt_view(r.context) == Some(context@),
    {
        StructuredError { code: self.code, message: self.message, context: Some(context.to_owned()) }
    }

    pub fn internal(message: &str) -> (r: Self)
        ensures
            r.code@ == kind_code(CaptureErrorKind::InternalError),
            r.message@ == message@,
            r.context is None,
    {
        Self::new("INTERNAL_ERROR", message)
    }

    /// The structured form of an error kind: its code, its default message, no context.
    pub fn from_kind(kind: CaptureErrorKind) -> (r: Self)
        ensures
            r.code@ == kind_code(kind),
            r.message@ == kind_message(kind),
            r.context is None,
    {
        Self::new(kind.code(), kind.default_message())
    }

    /// The structured form of a capture error: the kind's code, the error's own
    /// message and context.
    pub fn from_capture_error(value: CaptureError) -> (r: Self)
        ensures
            r.code@ == kind_code(value.kind),
            r.message == value.message,
            r.context == value.context,
    {
        StructuredError {
            code: value.kind.code().to_owned(),
            message: value.message,
            context: value.context,
        }
    }

    /// A copy of this error with the same code, message and context.
    pub fn duplicate(&self) -> (r: Self)
        ensures
            r == *self,
    {
        let context = match &self.context {
            Some(c) => Some(c.clone()),
            None => None,
        };
        StructuredError { code: self.code.clone(), message: self.message.clone(), context }
    }
}

impl From<CaptureErrorKind> for StructuredError {
    fn from(kind: CaptureErrorKind) -> (r: Self)
        ensures
            r.code@ == kind_code(kind),
            r.message@ == kind_message(kind),
            r.context is None,
    {
        Self::from_kind(kind)
    }
}

impl vstd::std_specs::convert::FromSpecImpl<CaptureErrorKind> for StructuredError {
    open spec fn obeys_from_spec() -> bool {
        false
    }

    open spec fn from_spec(v: CaptureErrorKind) -> Self {
        arbitrary()
    }
}

impl From<CaptureError> for StructuredError {
    fn from(value: CaptureError) -> (r: Self)
        ensures
            r.code@ == kind_code(value.kind),
            r.message == value.message,
            r.context == value.context,
    {
        Self::from_capture_error(value)
    }
}

impl vstd::std_specs::convert::FromSpecImpl<CaptureError> for StructuredError {
    open spec fn obeys_from_spec() -> bool {
        false
    }

    open spec fn from_spec(v: CaptureError) -> Self {
        arbitrary()
    }
}

/// An error of the capture pipeline with its kind, message and optional context.
#[derive(Debug, Clone, PartialEq, Eq)]
pub struct CaptureError {
    pub kind: CaptureErrorKind,
    pub message: String,
    pub context: Option<String>,
}

/// How a capture error reads: its message, followed by the context in
/// parentheses when there is one.
pub open spec fn capture_error_text(message: Seq<char>, context: Option<Seq<char>>) -> Seq<char> {
    match context {
        Some(c) => message + " ("@ + c + ")"@,
        None => message,
    }
}

impl CaptureError {
    pub fn new(kind: CaptureErrorKind) -> (r: Self)
        ensures
            r.kind == kind,
            r.message@ == kind_message(kind),
            r.context is None,
    {
        CaptureError { kind, message: kind.default_message().to_owned(), context: None }
    }

    pub fn with_message(self, message: &str) -> (r: Self)
        ensures
            r.kind == self.kind,
            r.message@ == message@,
            r.context == self.context,
    {
        CaptureError { kind: self.kind, message: message.to_owned(), context: self.context }
    }

    pub fn with_context(self, context: &str) -> (r: Self)
        ensures
            r.kind == self.kind,
            r.message == self.message,
            opt_view(r.context) == Some(context@),
    {
        CaptureError { kind: self.kind, message: self.message, context: Some(context.to_owned()) }
    }

    /// The human-readable text of this error.
    pub fn to_string(&self) -> (r: String)
        ensures
            r@ == capture_error_text(self.message@, opt_view(self.context)),
    {
        match &self.context {
            Some(c) => {
                let mut v: Vec<char> = Vec::new();
                push_str(&mut v, self.message.as_str());
                push_str(&mut v, " (");
                push_str(&mut v, c.as_str());
                push_str(&mut v, ")");
                string_from_chars(v.as_slice())
            },
            None => self.message.clone(),
        }
    }
}

/// Distinct error kinds have distinct codes, so the frontend can tell them apart.
pub proof fn lemma_kind_codes_distinct(a: CaptureErrorKind, b: CaptureErrorKind)
    requires
        a != b,
    ensures
        kind_code(a) != kind_code(b),
{
    reveal_strlit("PERMISSION_DENIED");
    reveal_strlit("MONITOR_NOT_FOUND");
    reveal_strlit("CAPTURE_FAILURE");
    reveal_strlit("IMAGE_PROCESSING_ERROR");
    reveal_strlit("CLIPBOARD_ERROR");
    reveal_strlit("STORAGE_ERROR");
    reveal_strlit("INVALID_STATE");
    reveal_strlit("OVERLAY_ERROR");
    reveal_strlit("CANCELLED");
    reveal_strlit("INVALID_MODEL");
    reveal_strlit("INVALID_CAPTURE_MODE");
    reveal_strlit("INTERNAL_ERROR");
    let ca = kind_code(a);
    let cb = kind_code(b);
    if ca.len() == cb.len() {
        if ca[0] == cb[0] {
            if ca[1] == cb[1] {
                assert(ca[2] != cb[2] || ca[8] != cb[8]);
            } else {
                assert(ca[1] != cb[1]);
            }
        } else {
            assert(ca[0] != cb[0]);
        }
    }
}

} // verus!
