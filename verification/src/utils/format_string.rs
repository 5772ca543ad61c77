use vstd::prelude::*;
use vstd::string::StrSliceExecFns;
use vstd::string::StringExecFns;
use crate::resources::resource_handler::ResourceManager;
use crate::utils::error::Error;
use crate::utils::error::FormatStringError;

verus! {

/// One piece of a parsed format string: literal text, or the name of a
/// resource whose value is substituted at resolution time.
#[derive(Debug, Clone)]
pub enum FormattableStringPart {
    Raw(String),
    ResourceReplace(String),
}

/// The mathematical shape of one segment.
pub enum PartView {
    Raw(Seq<char>),
    ResourceReplace(Seq<char>),
}

impl View for FormattableStringPart {
    type V = PartView;

    open spec fn view(&self) -> PartView {
        match self {
            FormattableStringPart::Raw(t) => PartView::Raw(t@),
            FormattableStringPart::ResourceReplace(n) => PartView::ResourceReplace(n@),
        }
    }
}

/// The views of a sequence of segments, in order.
pub open spec fn views_of(parts: Seq<FormattableStringPart>) -> Seq<PartView> {
    parts.map_values(|p: FormattableStringPart| p@)
}

/// A parsed format string: an ordered sequence of segments, fixed at parse
/// time. Concatenating the segments' resolved text in order reproduces the
/// fully expanded string.
#[derive(Debug, Clone)]
pub struct FormatString {
    parts: Vec<FormattableStringPart>,
}

impl View for FormatString {
    type V = Seq<PartView>;

    closed spec fn view(&self) -> Seq<PartView> {
        views_of(self.parts@)
    }
}

/// The escaping grammar, in literal mode: `<<` and `>>` stand for literal
/// `<` and `>`, an unescaped `<` opens a placeholder, and an unescaped `>`
/// is a syntax error. `buf` holds the literal text read so far; it is
/// flushed as a segment when a placeholder opens or the input ends (an
/// empty trailing buffer is dropped).
pub open spec fn parse_literal(s: Seq<char>, buf: Seq<char>) -> Result<Seq<PartView>, FormatStringError>
    decreases s.len(), 1int,
{
    if s.len() == 0 {
        if buf.len() == 0 {
            Ok(Seq::empty())
        } else {
            Ok(seq![PartView::Raw(buf)])
        }
    } else if s[0] == '<' {
        if s.len() >= 2 && s[1] == '<' {
            parse_literal(s.skip(2), buf.push('<'))
        } else {
            match parse_placeholder(s.skip(1), Seq::empty()) {
                Ok(parts) => Ok(seq![PartView::Raw(buf)] + parts),
                Err(e) => Err(e),
            }
        }
    } else if s[0] == '>' {
        if s.len() >= 2 && s[1] == '>' {
            parse_literal(s.skip(2), buf.push('>'))
        } else {
            Err(FormatStringError::UnpairedClose)
        }
    } else {
        parse_literal(s.skip(1), buf.push(s[0]))
    }
}

/// The escaping grammar, in placeholder mode: `>>` and `<<` stand for
/// literal `>` and `<` inside the name, an unescaped `>` closes the
/// placeholder, an unescaped `<` is a syntax error, and end of input while
/// the placeholder is open is a syntax error.
pub open spec fn parse_placeholder(s: Seq<char>, name: Seq<char>) -> Result<Seq<PartView>, FormatStringError>
    decreases s.len(), 0int,
{
    if s.len() == 0 {
        Err(FormatStringError::UnterminatedPlaceholder)
    } else if s[0] == '>' {
        if s.len() >= 2 && s[1] == '>' {
            parse_placeholder(s.skip(2), name.push('>'))
        } else {
            match parse_literal(s.skip(1), Seq::empty()) {
                Ok(parts) => Ok(seq![PartView::ResourceReplace(name)] + parts),
                Err(e) => Err(e),
            }
        }
    } else if s[0] == '<' {
        if s.len() >= 2 && s[1] == '<' {
            parse_placeholder(s.skip(2), name.push('<'))
        } else {
            Err(FormatStringError::LoneOpenInPlaceholder)
        }
    } else {
        parse_placeholder(s.skip(1), name.push(s[0]))
    }
}

/// What parsing a whole raw string yields: its segments, or the first
/// syntax error.
pub open spec fn spec_parse(s: Seq<char>) -> Result<Seq<PartView>, FormatStringError> {
    parse_literal(s, Seq::empty())
}

/// Prepends already-emitted segments to the outcome of parsing the rest.
pub open spec fn prefix_result(
    pre: Seq<PartView>,
    r: Result<Seq<PartView>, FormatStringError>,
) -> Result<Seq<PartView>, FormatStringError> {
    match r {
        Ok(parts) => Ok(pre + parts),
        Err(e) => Err(e),
    }
}

proof fn lemma_prefix_empty(r: Result<Seq<PartView>, FormatStringError>)
    ensures
        prefix_result(Seq::empty(), r) == r,
{
    match r {
        Ok(parts) => {
            assert(Seq::empty() + parts =~= parts);
        },
        Err(_) => {},
    }
}

proof fn lemma_prefix_concat(
    a: Seq<PartView>,
    b: Seq<PartView>,
    r: Result<Seq<PartView>, FormatStringError>,
)
    ensures
        prefix_result(a, prefix_result(b, r)) == prefix_result(a + b, r),
{
    match r {
        Ok(parts) => {
            assert(a + (b + parts) =~= (a + b) + parts);
        },
        Err(_) => {},
    }
}

/// What resolving segments against registered contents yields: the
/// concatenation, in order, of each literal's text and each placeholder's
/// registered value; or, for the first placeholder whose name is not
/// registered, that name. No partial output is produced on failure.
pub open spec fn resolve_parts(
    parts: Seq<PartView>,
    m: Map<Seq<char>, Seq<char>>,
) -> Result<Seq<char>, Seq<char>>
    decreases parts.len(),
{
    if parts.len() == 0 {
        Ok(Seq::empty())
    } else {
        match parts[0] {
            PartView::Raw(t) => match resolve_parts(parts.skip(1), m) {
                Ok(rest) => Ok(t + rest),
                Err(e) => Err(e),
            },
            PartView::ResourceReplace(name) => if m.contains_key(name) {
                match resolve_parts(parts.skip(1), m) {
                    Ok(rest) => Ok(m[name] + rest),
                    Err(e) => Err(e),
                }
            } else {
                Err(name)
            },
        }
    }
}

/// The names of a segment sequence's placeholders, in order of
/// appearance.
pub open spec fn placeholder_names_of(parts: Seq<PartView>) -> Seq<Seq<char>>
    decreases parts.len(),
{
    if parts.len() == 0 {
        Seq::empty()
    } else {
        match parts[0] {
            PartView::Raw(_) => placeholder_names_of(parts.skip(1)),
            PartView::ResourceReplace(name) => seq![name] + placeholder_names_of(parts.skip(1)),
        }
    }
}

impl FormatString {
    /// Parses raw text into segments under the escaping grammar. Malformed
    /// text (an unpaired `>`, a lone `<` inside a placeholder, or an
    /// unterminated placeholder) is rejected with the corresponding error.
    pub fn new(raw: &str) -> (r: Result<FormatString, FormatStringError>)
        ensures
            match spec_parse(raw@) {
                Ok(parts) => r matches Ok(f) && f@ == parts,
                Err(e) => r matches Err(e2) && e2 == e,
            },
    {
        let n: usize = raw.unicode_len();
        let mut i: usize = 0;
        let mut parts: Vec<FormattableStringPart> = Vec::new();
        let mut buf = String::new();

        proof {
            assert(raw@.skip(0) =~= raw@);
            assert(views_of(parts@) =~= Seq::<PartView>::empty());
            lemma_prefix_empty(parse_literal(raw@, buf@));
        }

        while i < n
            invariant
                n == raw@.len(),
                i <= n,
                spec_parse(raw@) == prefix_result(
                    views_of(parts@),
                    parse_literal(raw@.skip(i as int), buf@),
                ),
            decreases n - i,
        {
            let ghost s = raw@.skip(i as int);
            let ghost buf0 = buf@;
            let c = raw.get_char(i);
            proof {
                assert(s[0] == raw@[i as int]);
            }
            if c == '<' {
                if i + 1 < n && raw.get_char(i + 1) == '<' {
                    buf.append("<");
                    i = i + 2;
                    proof {
                        reveal_strlit("<");
                        assert(s[1] == raw@[i as int - 1]);
                        assert(buf@ =~= buf0.push('<'));
                        assert(s.skip(2) =~= raw@.skip(i as int));
                        assert(parse_literal(s, buf0) == parse_literal(raw@.skip(i as int), buf@));
                    }
                } else {
                    let ghost pre = views_of(parts@);
                    parts.push(FormattableStringPart::Raw(buf));
                    buf = String::new();
                    i = i + 1;
                    proof {
                        assert(s.len() >= 2 ==> s[1] == raw@[i as int]);
                        assert(!(s.len() >= 2 && s[1] == '<'));
                        assert(s.skip(1) =~= raw@.skip(i as int));
                        assert(parse_literal(s, buf0) == prefix_result(
                            seq![PartView::Raw(buf0)],
                            parse_placeholder(raw@.skip(i as int), Seq::empty()),
                        ));
                        assert(views_of(parts@) =~= pre + seq![PartView::Raw(buf0)]);
                        lemma_prefix_concat(
                            pre,
                            seq![PartView::Raw(buf0)],
                            parse_placeholder(raw@.skip(i as int), Seq::empty()),
                        );
                    }
                    let mut name = String::new();
                    let mut closed = false;
                    let ghost i_enter = i as int;
                    while i < n && !closed
                        invariant
                            n == raw@.len(),
                            i <= n,
                            i_enter <= i as int,
                            buf@ == Seq::<char>::empty(),
                            !closed ==> spec_parse(raw@) == prefix_result(
                                views_of(parts@),
                                parse_placeholder(raw@.skip(i as int), name@),
                            ),
                            closed ==> spec_parse(raw@) == prefix_result(
                                views_of(parts@),
                                parse_literal(raw@.skip(i as int), buf@),
                            ),
                        decreases n - i + (if closed { 0int } else { 1int }),
                    {
                        let ghost t = raw@.skip(i as int);
                        let ghost name0 = name@;
                        let c2 = raw.get_char(i);
                        proof {
                            assert(t[0] == raw@[i as int]);
                        }
                        if c2 == '>' {
                            if i + 1 < n && raw.get_char(i + 1) == '>' {
                                name.append(">");
                                i = i + 2;
                                proof {
                                    reveal_strlit(">");
                                    assert(t[1] == raw@[i as int - 1]);
                                    assert(name@ =~= name0.push('>'));
                                    assert(t.skip(2) =~= raw@.skip(i as int));
                                    assert(parse_placeholder(t, name0)
                                        == parse_placeholder(raw@.skip(i as int), name@));
                                }
                            } else {
                                let ghost pre2 = views_of(parts@);
                                parts.push(FormattableStringPart::ResourceReplace(name));
                                name = String::new();
                                closed = true;
                                i = i + 1;
                                proof {
                                    assert(t.len() >= 2 ==> t[1] == raw@[i as int]);
                                    assert(!(t.len() >= 2 && t[1] == '>'));
                                    assert(t.skip(1) =~= raw@.skip(i as int));
                                    assert(parse_placeholder(t, name0) == prefix_result(
                                        seq![PartView::ResourceReplace(name0)],
                                        parse_literal(raw@.skip(i as int), Seq::empty()),
                                    ));
                                    assert(views_of(parts@) =~= pre2 + seq![
                                        PartView::ResourceReplace(name0),
                                    ]);
                                    lemma_prefix_concat(
                                        pre2,
                                        seq![PartView::ResourceReplace(name0)],
                                        parse_literal(raw@.skip(i as int), Seq::empty()),
                                    );
                                }
                            }
                        } else if c2 == '<' {
                            if i + 1 < n && raw.get_char(i + 1) == '<' {
                                name.append("<");
                                i = i + 2;
                                proof {
                                    reveal_strlit("<");
                                    assert(t[1] == raw@[i as int - 1]);
                                    assert(name@ =~= name0.push('<'));
                                    assert(t.skip(2) =~= raw@.skip(i as int));
                                    assert(parse_placeholder(t, name0)
                                        == parse_placeholder(raw@.skip(i as int), name@));
                                }
                            } else {
                                proof {
                                    assert(t.len() >= 2 ==> t[1] == raw@[i as int + 1]);
                                    assert(!(t.len() >= 2 && t[1] == '<'));
                                    assert(parse_placeholder(t, name0)
                                        == Err::<Seq<PartView>, FormatStringError>(
                                            FormatStringError::LoneOpenInPlaceholder,
                                        ));
                                }
                                return Err(FormatStringError::LoneOpenInPlaceholder);
                            }
                        } else {
                            let piece = raw.substring_char(i, i + 1);
                            name.append(piece);
                            i = i + 1;
                            proof {
                                assert(piece@ =~= seq![raw@[i as int - 1]]);
                                assert(name@ =~= name0.push(t[0]));
                                assert(t.skip(1) =~= raw@.skip(i as int));
                                assert(parse_placeholder(t, name0)
                                    == parse_placeholder(raw@.skip(i as int), name@));
                            }
                        }
                    }
                    if !closed {
                        proof {
                            assert(i == n);
                            assert(raw@.skip(n as int) =~= Seq::<char>::empty());
                            assert(parse_placeholder(raw@.skip(i as int), name@)
                                == Err::<Seq<PartView>, FormatStringError>(
                                    FormatStringError::UnterminatedPlaceholder,
                                ));
                        }
                        return Err(FormatStringError::UnterminatedPlaceholder);
                    }
                }
            } else if c == '>' {
                if i + 1 < n && raw.get_char(i + 1) == '>' {
                    buf.append(">");
                    i = i + 2;
                    proof {
                        reveal_strlit(">");
                        assert(s[1] == raw@[i as int - 1]);
                        assert(buf@ =~= buf0.push('>'));
                        assert(s.skip(2) =~= raw@.skip(i as int));
                        assert(parse_literal(s, buf0) == parse_literal(raw@.skip(i as int), buf@));
                    }
                } else {
                    proof {
                        assert(s.len() >= 2 ==> s[1] == raw@[i as int + 1]);
                        assert(!(s.len() >= 2 && s[1] == '>'));
                        assert(parse_literal(s, buf0)
                            == Err::<Seq<PartView>, FormatStringError>(
                                FormatStringError::UnpairedClose,
                            ));
                    }
                    return Err(FormatStringError::UnpairedClose);
                }
            } else {
                let piece = raw.substring_char(i, i + 1);
                buf.append(piece);
                i = i + 1;
                proof {
                    assert(piece@ =~= seq![raw@[i as int - 1]]);
                    assert(buf@ =~= buf0.push(s[0]));
                    assert(s.skip(1) =~= raw@.skip(i as int));
                    assert(parse_literal(s, buf0) == parse_literal(raw@.skip(i as int), buf@));
                }
            }
        }

        proof {
            assert(raw@.skip(n as int) =~= Seq::<char>::empty());
        }
        if buf.unicode_len() > 0 {
            let ghost pre = views_of(parts@);
            let ghost buf0 = buf@;
            parts.push(FormattableStringPart::Raw(buf));
            proof {
                assert(views_of(parts@) =~= pre + seq![PartView::Raw(buf0)]);
            }
        }
        let r = FormatString { parts };
        proof {
            match spec_parse(raw@) {
                Ok(ps) => {
                    assert(r@ =~= ps);
                },
                Err(_) => {
                    assert(false);
                },
            }
        }
        Ok(r)
    }

    /// Resolves the format string against the registry: literal segments
    /// append verbatim, placeholder segments append the registered value of
    /// their name. The first name that is not registered fails the whole
    /// resolution with an error carrying that name; no partial output is
    /// returned.
    pub fn to_formatted_now(&self, resources: &ResourceManager) -> (r: Result<String, Error>)
        ensures
            match resolve_parts(self@, resources.contents()) {
                Ok(text) => r matches Ok(s) && s@ == text,
                Err(name) => r matches Err(e) && e matches Error::NoResFound(n) && n@ == name,
            },
    {
        let ghost m = resources.contents();
        let mut out = String::new();
        let mut i: usize = 0;
        let n = self.parts.len();
        proof {
            assert(self@.skip(0) =~= self@);
        }
        while i < n
            invariant
                n == self.parts.len(),
                i <= n,
                m == resources.contents(),
                self@.len() == n,
                resolve_parts(self@, m) == (match resolve_parts(self@.skip(i as int), m) {
                    Ok(rest) => Ok::<Seq<char>, Seq<char>>(out@ + rest),
                    Err(e) => Err(e),
                }),
            decreases n - i,
        {
            let ghost tail = self@.skip(i as int);
            let ghost out0 = out@;
            proof {
                assert(self@[i as int] == self.parts@[i as int]@);
                assert(tail[0] == self@[i as int]);
                assert(tail.skip(1) =~= self@.skip(i as int + 1));
            }
            match &self.parts[i] {
                FormattableStringPart::Raw(t) => {
                    out.append(t.as_str());
                    i = i + 1;
                    proof {
                        assert(resolve_parts(tail, m) == (match resolve_parts(tail.skip(1), m) {
                            Ok(rest) => Ok::<Seq<char>, Seq<char>>(t@ + rest),
                            Err(e) => Err(e),
                        }));
                        match resolve_parts(tail.skip(1), m) {
                            Ok(rest) => {
                                assert(out0 + (t@ + rest) =~= (out0 + t@) + rest);
                            },
                            Err(_) => {},
                        }
                    }
                },
                FormattableStringPart::ResourceReplace(name) => {
                    match resources.get(name.as_str()) {
                        Some(d) => {
                            out.append(d.value.as_str());
                            i = i + 1;
                            proof {
                                assert(resolve_parts(tail, m) == (match resolve_parts(
                                    tail.skip(1),
                                    m,
                                ) {
                                    Ok(rest) => Ok::<Seq<char>, Seq<char>>(m[name@] + rest),
                                    Err(e) => Err(e),
                                }));
                                match resolve_parts(tail.skip(1), m) {
                                    Ok(rest) => {
                                        assert(out0 + (m[name@] + rest) =~= (out0 + m[name@])
                                            + rest);
                                    },
                                    Err(_) => {},
                                }
                            }
                        },
                        None => {
                            proof {
                                assert(resolve_parts(tail, m) == Err::<Seq<char>, Seq<char>>(
                                    name@,
                                ));
                            }
                            return Err(Error::NoResFound(name.clone()));
                        },
                    }
                },
            }
        }
        proof {
            assert(self@.skip(n as int) =~= Seq::<PartView>::empty());
            assert(out@ + Seq::<char>::empty() =~= out@);
        }
        Ok(out)
    }

    /// The names this format string's placeholders reference, in order of
    /// appearance. A caller that wants a resource's value computed afresh
    /// for one call can build a registry holding a new value for each of
    /// these names and resolve against that; registering a name again in a
    /// live registry keeps the old value.
    pub fn placeholder_names(&self) -> (r: Vec<String>)
        ensures
            r@.map_values(|s: String| s@) == placeholder_names_of(self@),
    {
        let mut names: Vec<String> = Vec::new();
        let mut i: usize = 0;
        let n = self.parts.len();
        proof {
            assert(self@.skip(0) =~= self@);
            assert(names@.map_values(|s: String| s@) =~= Seq::<Seq<char>>::empty());
        }
        while i < n
            invariant
                n == self.parts.len(),
                i <= n,
                self@.len() == n,
                placeholder_names_of(self@) == names@.map_values(|s: String| s@)
                    + placeholder_names_of(self@.skip(i as int)),
            decreases n - i,
        {
            let ghost tail = self@.skip(i as int);
            let ghost done = names@.map_values(|s: String| s@);
            proof {
                assert(self@[i as int] == self.parts@[i as int]@);
                assert(tail[0] == self@[i as int]);
                assert(tail.skip(1) =~= self@.skip(i as int + 1));
            }
            match &self.parts[i] {
                FormattableStringPart::Raw(_) => {
                },
                FormattableStringPart::ResourceReplace(name) => {
                    names.push(name.clone());
                    proof {
                        assert(names@.map_values(|s: String| s@) =~= done + seq![name@]);
                        assert((done + seq![name@]) + placeholder_names_of(tail.skip(1)) =~= done
                            + (seq![name@] + placeholder_names_of(tail.skip(1))));
                    }
                },
            }
            i = i + 1;
        }
        proof {
            assert(self@.skip(n as int) =~= Seq::<PartView>::empty());
            assert(names@.map_values(|s: String| s@) + Seq::<Seq<char>>::empty() =~= names@.map_values(
                |s: String| s@,
            ));
        }
        names
    }

    /// Builds a format string directly from already-parsed segments.
    pub fn from_parts(parts: Vec<FormattableStringPart>) -> (r: FormatString)
        ensures
            r@ == views_of(parts@),
    {
        FormatString { parts }
    }

    /// The ordered segments of this format string.
    #[allow(dead_code)]
    pub(crate) fn inner_vec(&self) -> (r: &Vec<FormattableStringPart>)
        ensures
            views_of(r@) == self@,
    {
        &self.parts
    }
}

proof fn lemma_parse_literal_clean(s: Seq<char>, buf: Seq<char>)
    requires
        forall|j: int| 0 <= j < s.len() ==> s[j] != '<' && s[j] != '>',
    ensures
        parse_literal(s, buf) == (if buf.len() + s.len() == 0 {
            Ok::<Seq<PartView>, FormatStringError>(Seq::empty())
        } else {
            Ok(seq![PartView::Raw(buf + s)])
        }),
    decreases s.len(),
{
    if s.len() == 0 {
        assert(buf + s =~= buf);
    } else {
        lemma_parse_literal_clean(s.skip(1), buf.push(s[0]));
        assert(buf.push(s[0]) + s.skip(1) =~= buf + s);
    }
}

/// LAW: round trip for purely literal text. Parsing any string that holds
/// no `<` and no `>` succeeds, and resolving the result against any
/// registry contents whatever returns exactly the original string.
pub proof fn lemma_literal_round_trip(s: Seq<char>, m: Map<Seq<char>, Seq<char>>)
    requires
        forall|j: int| 0 <= j < s.len() ==> s[j] != '<' && s[j] != '>',
    ensures
        spec_parse(s) matches Ok(parts) && resolve_parts(parts, m) == Ok::<Seq<char>, Seq<char>>(s),
{
    lemma_parse_literal_clean(s, Seq::empty());
    assert(Seq::empty() + s =~= s);
    if s.len() == 0 {
        assert(spec_parse(s) == Ok::<Seq<PartView>, FormatStringError>(Seq::empty()));
        assert(resolve_parts(Seq::empty(), m) == Ok::<Seq<char>, Seq<char>>(Seq::empty()));
        assert(Seq::<char>::empty() =~= s);
    } else {
        let parts = seq![PartView::Raw(s)];
        assert(spec_parse(s) == Ok::<Seq<PartView>, FormatStringError>(parts));
        assert(parts.skip(1) =~= Seq::<PartView>::empty());
        assert(resolve_parts(parts.skip(1), m) == Ok::<Seq<char>, Seq<char>>(Seq::empty()));
        assert(s + Seq::<char>::empty() =~= s);
    }
}

} // verus!
