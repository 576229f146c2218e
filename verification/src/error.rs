//! The library's error value: what went wrong, the messages that were put
//! in front of it on the way up, and how it reads as text.

use vstd::prelude::*;

verus! {

/// Every error the library reports.
///
/// `Context` wraps another error with a message naming what was being done;
/// [`RsmediaError::with_context`] keeps at most one such layer, joining the
/// messages outermost first.
#[derive(Debug)]
#[non_exhaustive]
pub enum RsmediaError {
    /// A failure reported by FFmpeg, carried as FFmpeg's own text.
    FFmpeg(String),
    /// An I/O failure of the caller's own file or stream code, carried as its text.
    Io(String),
    /// The operation cannot be carried out by this build, platform or data.
    Unsupported(String),
    /// Invalid or contradictory configuration: the call itself has to change.
    InvalidConfig(String),
    /// Any other failure with a human readable message.
    Other(String),
    /// A failure of another library, carried as its text.
    External(String),
    /// A failure with a message naming what was being done.
    Context { context: String, source: Box<RsmediaError> },
}

/// Result type of the library.
pub type Result<T> = core::result::Result<T, RsmediaError>;

/// The error under every `Context` layer.
pub open spec fn root_of(e: RsmediaError) -> RsmediaError
    decreases e,
{
    match e {
        RsmediaError::Context { context, source } => root_of(*source),
        _ => e,
    }
}

/// The joined message that adding `c` to `e` leaves on its single context
/// layer: `c`, then each existing context from the outside in, separated by `": "`.
pub open spec fn joined_context(e: RsmediaError, c: Seq<char>) -> Seq<char>
    decreases e,
{
    match e {
        RsmediaError::Context { context, source } => joined_context(*source, c + seq![':', ' '] + context@),
        _ => c,
    }
}

/// What `e` reads as (its `Display` text).
pub open spec fn error_text(e: RsmediaError) -> Seq<char>
    decreases e,
{
    match e {
        RsmediaError::FFmpeg(m) => seq!['F', 'F', 'm', 'p', 'e', 'g', ' ', 'e', 'r', 'r', 'o', 'r', ':', ' '] + m@,
        RsmediaError::Io(m) => seq!['I', '/', 'O', ' ', 'e', 'r', 'r', 'o', 'r', ':', ' '] + m@,
        RsmediaError::Unsupported(m) => unsupported_prefix() + m@,
        RsmediaError::InvalidConfig(m) => invalid_config_prefix() + m@,
        RsmediaError::Other(m) => m@,
        RsmediaError::External(m) => m@,
        RsmediaError::Context { context, source } => context@ + seq![':', ' '] + error_text(*source),
    }
}

/// `"unsupported operation: "`
pub open spec fn unsupported_prefix() -> Seq<char> {
    seq!['u', 'n', 's', 'u', 'p', 'p', 'o', 'r', 't', 'e', 'd', ' ', 'o', 'p', 'e', 'r', 'a', 't', 'i', 'o', 'n', ':', ' ']
}

/// `"invalid configuration: "`
pub open spec fn invalid_config_prefix() -> Seq<char> {
    seq!['i', 'n', 'v', 'a', 'l', 'i', 'd', ' ', 'c', 'o', 'n', 'f', 'i', 'g', 'u', 'r', 'a', 't', 'i', 'o', 'n', ':', ' ']
}

/// `w` is `e` with the message `c` added in front: one context layer holding
/// the joined message over the root of `e`.
pub open spec fn is_context_of(w: RsmediaError, e: RsmediaError, c: Seq<char>) -> bool {
    &&& w matches RsmediaError::Context { context, source }
    &&& w->context@ == joined_context(e, c)
    &&& *w->source == root_of(e)
}

/// The root error is not a context layer.
pub proof fn lemma_root_is_bare(e: RsmediaError)
    ensures
        !(root_of(e) is Context),
        root_of(root_of(e)) == root_of(e),
    decreases e,
{
    if let RsmediaError::Context { context, source } = e {
        lemma_root_is_bare(*source);
    }
}

/// Text of the joined layer over the root equals the message followed by the
/// text of the error it wraps.
proof fn lemma_joined_text(e: RsmediaError, c: Seq<char>)
    ensures
        joined_context(e, c) + seq![':', ' '] + error_text(root_of(e)) == c + seq![':', ' '] + error_text(e),
    decreases e,
{
    if let RsmediaError::Context { context, source } = e {
        let c2 = c + seq![':', ' '] + context@;
        lemma_joined_text(*source, c2);
        assert(c2 + seq![':', ' '] + error_text(*source) =~= c + seq![':', ' '] + (context@ + seq![':', ' '] + error_text(*source)));
    }
}

impl RsmediaError {
    /// Puts `context` in front of this error, keeping the error underneath.
    ///
    /// An error that already carries context does not grow a second layer:
    /// the messages are joined with `": "`, outermost first, over the root.
    pub fn with_context(self, context: &str) -> (r: RsmediaError)
        ensures
            is_context_of(r, self, context@),
        decreases self,
    {
        match self {
            RsmediaError::Context { context: inner, source } => {
                let mut joined = context.to_string();
                joined.append(": ");
                joined.append(inner.as_str());
                proof {
                    reveal_strlit(": ");
                    assert(joined@ =~= context@ + seq![':', ' '] + inner@);
                }
                let r = (*source).with_context(joined.as_str());
                r
            },
            other => {
                let r = RsmediaError::Context { context: context.to_string(), source: Box::new(other) };
                proof {
                    lemma_root_is_bare(other);
                }
                r
            },
        }
    }

    /// An [`RsmediaError::Other`] with the message `msg`.
    pub fn msg(msg: &str) -> (r: RsmediaError)
        ensures
            r matches RsmediaError::Other(m) && m@ == msg@,
    {
        RsmediaError::Other(msg.to_string())
    }

    /// An [`RsmediaError::Unsupported`] with the reason `reason`.
    pub fn unsupported(reason: &str) -> (r: RsmediaError)
        ensures
            r matches RsmediaError::Unsupported(m) && m@ == reason@,
    {
        RsmediaError::Unsupported(reason.to_string())
    }

    /// An [`RsmediaError::InvalidConfig`] with the reason `reason`.
    pub fn invalid_config(reason: &str) -> (r: RsmediaError)
        ensures
            r matches RsmediaError::InvalidConfig(m) && m@ == reason@,
    {
        RsmediaError::InvalidConfig(reason.to_string())
    }

    /// The error under every context layer.
    pub fn root(&self) -> (r: &RsmediaError)
        ensures
            *r == root_of(*self),
        decreases *self,
    {
        match self {
            RsmediaError::Context { context, source } => source.root(),
            _ => self,
        }
    }

    /// Whether the root error is [`RsmediaError::Unsupported`].
    pub fn is_unsupported(&self) -> (b: bool)
        ensures
            b == (root_of(*self) is Unsupported),
    {
        match self.root() {
            RsmediaError::Unsupported(_) => true,
            _ => false,
        }
    }

    /// Whether the root error is [`RsmediaError::InvalidConfig`].
    pub fn is_invalid_config(&self) -> (b: bool)
        ensures
            b == (root_of(*self) is InvalidConfig),
    {
        match self.root() {
            RsmediaError::InvalidConfig(_) => true,
            _ => false,
        }
    }

    /// The text this error reads as (what `Display` prints).
    pub fn message(&self) -> (s: String)
        ensures
            s@ == error_text(*self),
        decreases *self,
    {
        match self {
            RsmediaError::FFmpeg(m) => {
                let mut s = "FFmpeg error: ".to_string();
                s.append(m.as_str());
                proof { reveal_strlit("FFmpeg error: "); }
                s
            },
            RsmediaError::Io(m) => {
                let mut s = "I/O error: ".to_string();
                s.append(m.as_str());
                proof { reveal_strlit("I/O error: "); }
                s
            },
            RsmediaError::Unsupported(m) => {
                let mut s = "unsupported operation: ".to_string();
                s.append(m.as_str());
                proof { reveal_strlit("unsupported operation: "); }
                s
            },
            RsmediaError::InvalidConfig(m) => {
                let mut s = "invalid configuration: ".to_string();
                s.append(m.as_str());
                proof { reveal_strlit("invalid configuration: "); }
                s
            },
            RsmediaError::Other(m) => m.clone(),
            RsmediaError::External(m) => m.clone(),
            RsmediaError::Context { context, source } => {
                let mut s = context.clone();
                s.append(": ");
                let inner = source.message();
                s.append(inner.as_str());
                proof { reveal_strlit(": "); }
                s
            },
        }
    }
}

/// Adding context never changes the root error.
pub proof fn law_context_keeps_root(e: RsmediaError, w: RsmediaError, c: Seq<char>)
    requires
        is_context_of(w, e, c),
    ensures
        root_of(w) == root_of(e),
{
    lemma_root_is_bare(e);
}

/// Adding context keeps what the error is recognised as: unsupported stays
/// unsupported, invalid configuration stays invalid configuration.
pub proof fn law_context_keeps_kind(e: RsmediaError, w: RsmediaError, c: Seq<char>)
    requires
        is_context_of(w, e, c),
    ensures
        (root_of(w) is Unsupported) == (root_of(e) is Unsupported),
        (root_of(w) is InvalidConfig) == (root_of(e) is InvalidConfig),
{
    law_context_keeps_root(e, w, c);
}

/// An error with context added reads as the context, `": "`, then the
/// wrapped error's text; so nested contexts read outermost first.
pub proof fn law_context_text(e: RsmediaError, w: RsmediaError, c: Seq<char>)
    requires
        is_context_of(w, e, c),
    ensures
        error_text(w) == c + seq![':', ' '] + error_text(e),
{
    lemma_joined_text(e, c);
}

/// Turns a missing value or a failure into a library error carrying a message.
pub trait Context<T>: Sized {
    /// Whether this value is a missing value or a failure (the message is used).
    spec fn lacks_value(&self) -> bool;

    /// `r` is what this value becomes with the message `msg`.
    spec fn context_result(&self, msg: Seq<char>, r: Result<T>) -> bool;

    /// Keeps a present value; otherwise fails with `context` as the message.
    fn context(self, context: &str) -> (r: Result<T>)
        ensures
            self.context_result(context@, r),
    ;

    /// As [`Context::context`], with the message computed by `f` only when it is needed.
    fn with_context<F: FnOnce() -> String>(self, f: F) -> (r: Result<T>)
        requires
            self.lacks_value() ==> f.requires(()),
        ensures
            !self.lacks_value() ==> self.context_result(Seq::empty(), r),
            self.lacks_value() ==> exists|s: String| f.ensures((), s) && self.context_result(s@, r),
    ;
}

impl<T> Context<T> for Option<T> {
    open spec fn lacks_value(&self) -> bool {
        self is None
    }

    /// A present value is kept; a missing one becomes [`RsmediaError::Other`] with the message.
    open spec fn context_result(&self, msg: Seq<char>, r: Result<T>) -> bool {
        match self {
            Some(v) => r == Ok::<T, RsmediaError>(*v),
            None => r matches Err(RsmediaError::Other(m)) && m@ == msg,
        }
    }

    fn context(self, context: &str) -> (r: Result<T>) {
        match self {
            Some(v) => Ok(v),
            None => Err(RsmediaError::Other(context.to_string())),
        }
    }

    fn with_context<F: FnOnce() -> String>(self, f: F) -> (r: Result<T>) {
        match self {
            Some(v) => Ok(v),
            None => {
                let m = f();
                let r = Err(RsmediaError::Other(m));
                assert(f.ensures((), m) && self.context_result(m@, r));
                r
            },
        }
    }
}

impl<T> Context<T> for core::result::Result<T, RsmediaError> {
    open spec fn lacks_value(&self) -> bool {
        self is Err
    }

    /// A success is kept; a failure gets the message put in front of it.
    open spec fn context_result(&self, msg: Seq<char>, r: Result<T>) -> bool {
        match self {
            Ok(v) => r == Ok::<T, RsmediaError>(*v),
            Err(e) => r matches Err(w) && is_context_of(w, *e, msg),
        }
    }

    fn context(self, context: &str) -> (r: Result<T>) {
        match self {
            Ok(v) => Ok(v),
            Err(e) => Err(e.with_context(context)),
        }
    }

    fn with_context<F: FnOnce() -> String>(self, f: F) -> (r: Result<T>) {
        match self {
            Ok(v) => Ok(v),
            Err(e) => {
                let m = f();
                let r = Err(e.with_context(m.as_str()));
                assert(f.ensures((), m) && self.context_result(m@, r));
                r
            },
        }
    }
}

} // verus!
