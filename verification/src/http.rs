//! Minimal HTTP GET request parser.
//!
//! A byte-at-a-time state machine accepts exactly `GET <query> ...` and
//! then scans for the blank line ending the header block. The query is
//! collected into a bounded buffer; afterwards it can be read back
//! whole, split into the path before `?`, or into `name=value` argument
//! pairs.

use vstd::prelude::*;

verus! {

/// Longest query the parser accepts, in bytes.
pub const MAX_QUERY: usize = 128;

/// Parser position inside the request.
#[derive(Debug, Clone, Copy, PartialEq, Eq, Structural)]
pub enum State {
    /// Expecting the `G` of `GET`.
    WaitG,
    /// Expecting the `E` of `GET`.
    WaitE,
    /// Expecting the `T` of `GET`.
    WaitT,
    /// Expecting the space after `GET`.
    WaitSpace,
    /// Collecting the query up to the next space.
    GetQuery,
    /// Scanning for a carriage return.
    WaitCR1,
    /// Seen one carriage return, expecting its line feed.
    WaitLF1,
    /// Seen one full line end, expecting a second carriage return.
    WaitCR2,
    /// Seen the second carriage return, expecting the final line feed.
    WaitLF2,
    /// Request complete.
    Finished,
}

/// One parsed request in progress: the machine state and the collected
/// query bytes.
pub struct Request {
    pub state: State,
    pub query: Vec<u8>,
}

/// Effect of one input byte: successor state, successor query, and the
/// result handed back (`Ok(true)` exactly when the request completes;
/// an error names what was malformed, as a character sequence).
pub open spec fn spec_step(state: State, query: Seq<u8>, c: u8) -> (
    State,
    Seq<u8>,
    Result<bool, Seq<char>>,
) {
    match state {
        State::WaitG => if c == 71 {  // 'G'
            (State::WaitE, query, Ok(false))
        } else {
            (state, query, Err("invalid character in method"@))
        },
        State::WaitE => if c == 69 {  // 'E'
            (State::WaitT, query, Ok(false))
        } else {
            (state, query, Err("invalid character in method"@))
        },
        State::WaitT => if c == 84 {  // 'T'
            (State::WaitSpace, query, Ok(false))
        } else {
            (state, query, Err("invalid character in method"@))
        },
        State::WaitSpace => if c == 32 {  // ' '
            (State::GetQuery, query, Ok(false))
        } else {
            (state, query, Err("invalid character in method"@))
        },
        State::GetQuery => if c == 13 || c == 10 {  // '\r' or '\n'
            (state, query, Err("GET ended prematurely"@))
        } else if c == 32 {  // ' '
            if query.len() == 0 {
                (state, query, Err("query is empty"@))
            } else {
                (State::WaitCR1, query, Ok(false))
            }
        } else {
            if query.len() >= MAX_QUERY {
                (state, query, Err("query is too long"@))
            } else {
                (state, query.push(c), Ok(false))
            }
        },
        State::WaitCR1 => if c == 13 {
            (State::WaitLF1, query, Ok(false))
        } else {
            (State::WaitCR1, query, Ok(false))
        },
        State::WaitLF1 => if c == 10 {
            (State::WaitCR2, query, Ok(false))
        } else {
            (State::WaitCR1, query, Ok(false))
        },
        State::WaitCR2 => if c == 13 {
            (State::WaitLF2, query, Ok(false))
        } else {
            (State::WaitCR1, query, Ok(false))
        },
        State::WaitLF2 => if c == 10 {
            (State::Finished, query, Ok(true))
        } else {
            (State::WaitCR1, query, Ok(false))
        },
        State::Finished => (state, query, Err("trailing characters"@)),
    }
}

/// Effect of a whole byte sequence, stopping at the first error: the
/// result is that of the last byte consumed, or `Ok(false)` for an empty
/// sequence.
pub open spec fn spec_run(state: State, query: Seq<u8>, bytes: Seq<u8>) -> (
    State,
    Seq<u8>,
    Result<bool, Seq<char>>,
)
    decreases bytes.len(),
{
    if bytes.len() == 0 {
        (state, query, Ok(false))
    } else {
        let stepped = spec_step(state, query, bytes[0]);
        if stepped.2 is Err || bytes.len() == 1 {
            stepped
        } else {
            spec_run(stepped.0, stepped.1, bytes.drop_first())
        }
    }
}

impl Request {
    /// The collected query never exceeds the buffer bound.
    pub open spec fn inv(self) -> bool {
        self.query@.len() <= MAX_QUERY
    }

    /// A fresh parser, ready for the `G` of a request line.
    pub fn new() -> (r: Request)
        ensures
            r.inv(),
            r.state == State::WaitG,
            r.query@ == Seq::<u8>::empty(),
    {
        Request { state: State::WaitG, query: Vec::new() }
    }

    /// Forget everything and await a fresh request.
    pub fn reset(&mut self)
        ensures
            final(self).inv(),
            final(self).state == State::WaitG,
            final(self).query@ == Seq::<u8>::empty(),
    {
        self.state = State::WaitG;
        self.query.clear();
    }

    /// Feed one byte through the machine, exactly as `spec_step` says.
    /// `Ok(true)` reports a complete request; an error reports the
    /// malformed input and leaves the machine where it was, so the
    /// caller can discard the request and `reset`.
    pub fn input_char(&mut self, c: u8) -> (r: Result<bool, &'static str>)
        requires
            old(self).inv(),
        ensures
            final(self).inv(),
            final(self).state == spec_step(old(self).state, old(self).query@, c).0,
            final(self).query@ == spec_step(old(self).state, old(self).query@, c).1,
            r matches Ok(done) ==> spec_step(old(self).state, old(self).query@, c).2
                == Ok::<bool, Seq<char>>(done),
            r matches Err(e) ==> spec_step(old(self).state, old(self).query@, c).2
                == Err::<bool, Seq<char>>(e@),
    {
        match self.state {
            State::WaitG => {
                if c == 71 {
                    self.state = State::WaitE;
                } else {
                    return Err("invalid character in method");
                }
            },
            State::WaitE => {
                if c == 69 {
                    self.state = State::WaitT;
                } else {
                    return Err("invalid character in method");
                }
            },
            State::WaitT => {
                if c == 84 {
                    self.state = State::WaitSpace;
                } else {
                    return Err("invalid character in method");
                }
            },
            State::WaitSpace => {
                if c == 32 {
                    self.state = State::GetQuery;
                } else {
                    return Err("invalid character in method");
                }
            },
            State::GetQuery => {
                if c == 13 || c == 10 {
                    return Err("GET ended prematurely");
                } else if c == 32 {
                    if self.query.len() == 0 {
                        return Err("query is empty");
                    } else {
                        self.state = State::WaitCR1;
                    }
                } else {
                    if self.query.len() >= MAX_QUERY {
                        return Err("query is too long");
                    } else {
                        self.query.push(c);
                    }
                }
            },
            State::WaitCR1 => {
                if c == 13 {
                    self.state = State::WaitLF1;
                }
            },
            State::WaitLF1 => {
                if c == 10 {
                    self.state = State::WaitCR2;
                } else {
                    self.state = State::WaitCR1;
                }
            },
            State::WaitCR2 => {
                if c == 13 {
                    self.state = State::WaitLF2;
                } else {
                    self.state = State::WaitCR1;
                }
            },
            State::WaitLF2 => {
                if c == 10 {
                    self.state = State::Finished;
                    return Ok(true);
                } else {
                    self.state = State::WaitCR1;
                }
            },
            State::Finished => {
                return Err("trailing characters");
            },
        }
        Ok(false)
    }

    /// Feed a whole buffer, stopping at the first error, exactly as
    /// `spec_run` says; the result is the last byte's.
    pub fn input(&mut self, buf: &[u8]) -> (r: Result<bool, &'static str>)
        requires
            old(self).inv(),
        ensures
            final(self).inv(),
            final(self).state == spec_run(old(self).state, old(self).query@, buf@).0,
            final(self).query@ == spec_run(old(self).state, old(self).query@, buf@).1,
            r matches Ok(done) ==> spec_run(old(self).state, old(self).query@, buf@).2
                == Ok::<bool, Seq<char>>(done),
            r matches Err(e) ==> spec_run(old(self).state, old(self).query@, buf@).2
                == Err::<bool, Seq<char>>(e@),
    {
        proof {
            assert(buf@.skip(0) =~= buf@);
        }
        self.input_from(buf, 0)
    }

    /// Feed the buffer's suffix starting at `i`, recursively, mirroring
    /// `spec_run` on `buf@.skip(i)`.
    fn input_from(&mut self, buf: &[u8], i: usize) -> (r: Result<bool, &'static str>)
        requires
            old(self).inv(),
            i <= buf@.len(),
        ensures
            final(self).inv(),
            final(self).state == spec_run(old(self).state, old(self).query@, buf@.skip(i as int)).0,
            final(self).query@ == spec_run(old(self).state, old(self).query@, buf@.skip(i as int)).1,
            r matches Ok(done) ==> spec_run(old(self).state, old(self).query@, buf@.skip(i as int)).2
                == Ok::<bool, Seq<char>>(done),
            r matches Err(e) ==> spec_run(old(self).state, old(self).query@, buf@.skip(i as int)).2
                == Err::<bool, Seq<char>>(e@),
        decreases buf@.len() - i,
    {
        if i == buf.len() {
            return Ok(false);
        }
        let c: u8 = buf[i];
        assert(buf@.skip(i as int)[0] == c);
        let first = self.input_char(c);
        match first {
            Err(e) => Err(e),
            Ok(done) => {
                if i + 1 == buf.len() {
                    Ok(done)
                } else {
                    proof {
                        assert(buf@.skip(i as int).drop_first() =~= buf@.skip(i as int + 1));
                    }
                    self.input_from(buf, i + 1)
                }
            },
        }
    }

    /// The collected query of a finished request, or an error while the
    /// request is still being parsed.
    pub fn get_query(&self) -> (r: Result<&[u8], &'static str>)
        ensures
            self.state == State::Finished ==> (r matches Ok(q) && q@ == self.query@),
            self.state != State::Finished ==> (r matches Err(e) && e@
                == "request is not finished"@),
    {
        if self.state == State::Finished {
            Ok(self.query.as_slice())
        } else {
            Err("request is not finished")
        }
    }
}


/// The pieces of `data` between occurrences of `sep`, as Rust's slice
/// `split` yields them: one piece more than there are separators, empty
/// pieces included (so splitting an empty sequence yields one empty
/// piece).
pub open spec fn spec_split(data: Seq<u8>, sep: u8) -> Seq<Seq<u8>>
    decreases data.len(),
{
    if data.len() == 0 {
        seq![Seq::<u8>::empty()]
    } else if data[0] == sep {
        seq![Seq::<u8>::empty()] + spec_split(data.drop_first(), sep)
    } else {
        let rest = spec_split(data.drop_first(), sep);
        seq![seq![data[0]] + rest[0]] + rest.drop_first()
    }
}

/// Splitting always yields at least one piece.
pub proof fn lemma_split_nonempty(data: Seq<u8>, sep: u8)
    ensures
        spec_split(data, sep).len() >= 1,
    decreases data.len(),
{
    if data.len() == 0 {
    } else {
        lemma_split_nonempty(data.drop_first(), sep);
    }
}

/// A piece list with its first piece extended by `prefix`.
pub open spec fn spec_shift(prefix: Seq<u8>, pieces: Seq<Seq<u8>>) -> Seq<Seq<u8>> {
    seq![prefix + pieces[0]] + pieces.drop_first()
}

/// Split a byte slice at a separator, `spec_split` made executable.
pub fn split_bytes(data: &[u8], sep: u8) -> (r: Vec<Vec<u8>>)
    ensures
        r@.map_values(|piece: Vec<u8>| piece@) == spec_split(data@, sep),
        r@.len() >= 1,
{
    let ghost full = spec_split(data@, sep);
    let mut finished: Vec<Vec<u8>> = Vec::new();
    let mut current: Vec<u8> = Vec::new();
    let mut i: usize = 0;
    proof {
        assert(data@.skip(0) =~= data@);
    }
    while i < data.len()
        invariant
            i <= data@.len(),
            full == spec_split(data@, sep),
            full == finished@.map_values(|piece: Vec<u8>| piece@) + spec_shift(
                current@,
                spec_split(data@.skip(i as int), sep),
            ),
        decreases data@.len() - i,
    {
        let ghost before = spec_split(data@.skip(i as int), sep);
        proof {
            assert(data@.skip(i as int).len() > 0);
            assert(data@.skip(i as int)[0] == data@[i as int]);
            assert(data@.skip(i as int).drop_first() =~= data@.skip(i as int + 1));
            lemma_split_nonempty(data@.skip(i as int + 1), sep);
        }
        let c: u8 = data[i];
        if c == sep {
            let ghost after = spec_split(data@.skip(i as int + 1), sep);
            proof {
                assert(before == seq![Seq::<u8>::empty()] + after);
                assert(before[0] =~= Seq::<u8>::empty());
                assert(before.drop_first() =~= after);
                assert(spec_shift(current@, before) =~~= seq![current@] + after);
            }
            let ghost done = current@;
            finished.push(current);
            current = Vec::new();
            proof {
                assert(finished@.map_values(|piece: Vec<u8>| piece@) =~~= finished@.drop_last().map_values(
                    |piece: Vec<u8>| piece@,
                ).push(done));
                assert(spec_shift(Seq::<u8>::empty(), after) =~~= after);
                assert(finished@.map_values(|piece: Vec<u8>| piece@) + spec_shift(
                    Seq::<u8>::empty(),
                    after,
                ) =~~= full);
            }
        } else {
            let ghost after = spec_split(data@.skip(i as int + 1), sep);
            proof {
                assert(before == seq![seq![c] + after[0]] + after.drop_first());
                assert(before[0] =~= seq![c] + after[0]);
                assert(before.drop_first() =~= after.drop_first());
                assert(spec_shift(current@, before) =~~= spec_shift(current@.push(c), after));
            }
            current.push(c);
        }
        i = i + 1;
    }
    proof {
        assert(data@.skip(data@.len() as int).len() == 0);
        assert(spec_split(data@.skip(data@.len() as int), sep) == seq![Seq::<u8>::empty()]);
        assert(spec_shift(current@, seq![Seq::<u8>::empty()]) =~~= seq![current@]);
    }
    finished.push(current);
    proof {
        assert(finished@.map_values(|piece: Vec<u8>| piece@) =~~= full);
    }
    finished
}


/// Name and value of one argument piece: the text before the first `=`
/// and the text between the first and second `=` (empty when absent).
pub open spec fn spec_arg_pair(piece: Seq<u8>) -> (Seq<u8>, Seq<u8>) {
    let eq_pieces = spec_split(piece, 61);  // '='
    (eq_pieces[0], if eq_pieces.len() >= 2 { eq_pieces[1] } else { Seq::<u8>::empty() })
}

/// Argument pairs of a query: the text between the first and second `?`
/// (empty when there is no `?`), split at `&`, each piece read as a
/// name/value pair — empty pieces included.
pub open spec fn spec_args(query: Seq<u8>) -> Seq<(Seq<u8>, Seq<u8>)> {
    let question_pieces = spec_split(query, 63);  // '?'
    let args_part = if question_pieces.len() >= 2 {
        question_pieces[1]
    } else {
        Seq::<u8>::empty()
    };
    spec_split(args_part, 38).map_values(|piece: Seq<u8>| spec_arg_pair(piece))  // '&'
}

/// Value of the first pair whose name matches, if any.
pub open spec fn spec_lookup(args: Seq<(Seq<u8>, Seq<u8>)>, name: Seq<u8>) -> Option<Seq<u8>>
    decreases args.len(),
{
    if args.len() == 0 {
        None
    } else if args[0].0 == name {
        Some(args[0].1)
    } else {
        spec_lookup(args.drop_first(), name)
    }
}

/// Looking a name up skips any prefix of pairs with other names.
pub proof fn lemma_lookup_skip(args: Seq<(Seq<u8>, Seq<u8>)>, name: Seq<u8>, i: int)
    requires
        0 <= i <= args.len(),
        forall|k: int| 0 <= k < i ==> #[trigger] args[k].0 != name,
    ensures
        spec_lookup(args, name) == spec_lookup(args.skip(i), name),
    decreases i,
{
    if i == 0 {
        assert(args.skip(0) =~= args);
    } else {
        assert(args[0].0 != name);
        lemma_lookup_skip(args.drop_first(), name, i - 1);
        assert(args.drop_first().skip(i - 1) =~= args.skip(i));
    }
}

/// Byte-for-byte slice equality.
pub fn bytes_eq(a: &[u8], b: &[u8]) -> (r: bool)
    ensures
        r == (a@ == b@),
{
    if a.len() != b.len() {
        return false;
    }
    let mut i: usize = 0;
    while i < a.len()
        invariant
            i <= a@.len(),
            a@.len() == b@.len(),
            forall|k: int| 0 <= k < i ==> a@[k] == b@[k],
        decreases a@.len() - i,
    {
        if a[i] != b[i] {
            return false;
        }
        i = i + 1;
    }
    proof {
        assert(a@ =~= b@);
    }
    true
}

impl Request {
    /// The path of a finished request: the query up to the first `?`.
    pub fn get_path(&self) -> (r: Result<Vec<u8>, &'static str>)
        ensures
            self.state == State::Finished ==> (r matches Ok(path) && path@ == spec_split(
                self.query@,
                63,
            )[0]),
            self.state != State::Finished ==> (r matches Err(e) && e@
                == "request is not finished"@),
    {
        let query_slice: &[u8] = match self.get_query() {
            Ok(q) => q,
            Err(e) => {
                return Err(e);
            },
        };
        let mut pieces = split_bytes(query_slice, 63);
        proof {
            assert(pieces@.map_values(|piece: Vec<u8>| piece@)[0] == pieces@[0]@);
        }
        let path = pieces.remove(0);
        Ok(path)
    }

    /// The argument pairs of a finished request, in order, empty pieces
    /// included, exactly as `spec_args` reads the query.
    pub fn iter_args(&self) -> (r: Result<Vec<(Vec<u8>, Vec<u8>)>, &'static str>)
        ensures
            self.state == State::Finished ==> (r matches Ok(args) && args@.map_values(
                |pair: (Vec<u8>, Vec<u8>)| (pair.0@, pair.1@),
            ) == spec_args(self.query@)),
            self.state != State::Finished ==> (r matches Err(e) && e@
                == "request is not finished"@),
    {
        let query_slice: &[u8] = match self.get_query() {
            Ok(q) => q,
            Err(e) => {
                return Err(e);
            },
        };
        let mut question_pieces = split_bytes(query_slice, 63);
        let args_part: Vec<u8> = if question_pieces.len() >= 2 {
            proof {
                assert(question_pieces@.map_values(|piece: Vec<u8>| piece@)[1]
                    == question_pieces@[1]@);
            }
            question_pieces.remove(1)
        } else {
            Vec::new()
        };
        let arg_pieces = split_bytes(args_part.as_slice(), 38);
        let ghost piece_views = arg_pieces@.map_values(|piece: Vec<u8>| piece@);
        let mut out: Vec<(Vec<u8>, Vec<u8>)> = Vec::new();
        let mut j: usize = 0;
        while j < arg_pieces.len()
            invariant
                j <= arg_pieces@.len(),
                piece_views == arg_pieces@.map_values(|piece: Vec<u8>| piece@),
                piece_views == spec_split(args_part@, 38),
                out@.len() == j,
                forall|k: int| 0 <= k < j ==> (out@[k].0@, out@[k].1@) == spec_arg_pair(
                    #[trigger] piece_views[k],
                ),
            decreases arg_pieces@.len() - j,
        {
            let piece: &Vec<u8> = &arg_pieces[j];
            proof {
                assert(piece_views[j as int] == piece@);
            }
            let mut eq_pieces = split_bytes(piece.as_slice(), 61);
            proof {
                assert(eq_pieces@.map_values(|p: Vec<u8>| p@)[0] == eq_pieces@[0]@);
            }
            let name = eq_pieces.remove(0);
            let value: Vec<u8> = if eq_pieces.len() >= 1 {
                proof {
                    assert(spec_split(piece@, 61)[1] == eq_pieces@[0]@);
                }
                eq_pieces.remove(0)
            } else {
                Vec::new()
            };
            proof {
                assert((name@, value@) == spec_arg_pair(piece_views[j as int]));
            }
            out.push((name, value));
            j = j + 1;
        }
        proof {
            let mapped = out@.map_values(|pair: (Vec<u8>, Vec<u8>)| (pair.0@, pair.1@));
            let wanted = piece_views.map_values(|piece: Seq<u8>| spec_arg_pair(piece));
            assert forall|k: int| 0 <= k < mapped.len() implies #[trigger] mapped[k] == wanted[k] by {
                assert((out@[k].0@, out@[k].1@) == spec_arg_pair(piece_views[k]));
            }
            assert(mapped =~~= wanted);
        }
        Ok(out)
    }

    /// The value of the named argument of a finished request, or an
    /// error when the name does not occur.
    pub fn get_arg(&self, name: &[u8]) -> (r: Result<Vec<u8>, &'static str>)
        ensures
            self.state == State::Finished ==> match spec_lookup(spec_args(self.query@), name@) {
                Some(v) => r matches Ok(value) && value@ == v,
                None => r matches Err(e) && e@ == "argument not found"@,
            },
            self.state != State::Finished ==> (r matches Err(e) && e@
                == "request is not finished"@),
    {
        let mut args = match self.iter_args() {
            Ok(a) => a,
            Err(e) => {
                return Err(e);
            },
        };
        let ghost arg_views = args@.map_values(|pair: (Vec<u8>, Vec<u8>)| (pair.0@, pair.1@));
        let mut i: usize = 0;
        while i < args.len()
            invariant
                i <= args@.len(),
                self.state == State::Finished,
                arg_views == args@.map_values(|pair: (Vec<u8>, Vec<u8>)| (pair.0@, pair.1@)),
                arg_views == spec_args(self.query@),
                forall|k: int| 0 <= k < i ==> #[trigger] arg_views[k].0 != name@,
            decreases args@.len() - i,
        {
            let matches_name: bool = bytes_eq((&args[i]).0.as_slice(), name);
            proof {
                assert(arg_views[i as int] == (args@[i as int].0@, args@[i as int].1@));
            }
            if matches_name {
                proof {
                    lemma_lookup_skip(arg_views, name@, i as int);
                    assert(arg_views.skip(i as int)[0] == arg_views[i as int]);
                }
                let pair = args.remove(i);
                return Ok(pair.1);
            }
            i = i + 1;
        }
        proof {
            lemma_lookup_skip(arg_views, name@, arg_views.len() as int);
            assert(arg_views.skip(arg_views.len() as int).len() == 0);
        }
        Err("argument not found")
    }
}

/// The extra header lines sent with a gzip-compressed body.
pub open spec fn spec_gzip_headers() -> Seq<char> {
    "Content-Encoding: gzip\r\n"@ + "Cache-Control: public, max-age=600\r\n"@
}

/// The full reply header for one of the three supported status codes.
pub open spec fn spec_reply_header(status: u16, content_type: Seq<char>, gzip: bool) -> Seq<char> {
    let status_line = if status == 200 {
        "HTTP/1.1 200 OK\r\nContent-Type: "@
    } else if status == 404 {
        "HTTP/1.1 404 Not Found\r\nContent-Type: "@
    } else {
        "HTTP/1.1 500 Internal Server Error\r\nContent-Type: "@
    };
    status_line + content_type + "\r\n"@ + (if gzip {
        spec_gzip_headers()
    } else {
        Seq::<char>::empty()
    }) + "\r\n"@
}

/// Render the reply header for a status code, content type and
/// compression flag; only the three status codes the device serves are
/// supported, anything else is refused.
pub fn write_reply_header(status: u16, content_type: &str, gzip: bool) -> (r: Result<
    String,
    (),
>)
    ensures
        (status == 200 || status == 404 || status == 500) ==> (r matches Ok(header) && header@
            == spec_reply_header(status, content_type@, gzip)),
        !(status == 200 || status == 404 || status == 500) ==> r == Err::<String, ()>(()),
{
    let mut out: String = match status {
        200u16 => String::from_str("HTTP/1.1 200 OK\r\nContent-Type: "),
        404u16 => String::from_str("HTTP/1.1 404 Not Found\r\nContent-Type: "),
        500u16 => String::from_str("HTTP/1.1 500 Internal Server Error\r\nContent-Type: "),
        _ => {
            return Err(());
        },
    };
    out.append(content_type);
    out.append("\r\n");
    if gzip {
        out.append("Content-Encoding: gzip\r\n");
        out.append("Cache-Control: public, max-age=600\r\n");
    }
    out.append("\r\n");
    proof {
        assert(out@ =~= spec_reply_header(status, content_type@, gzip));
    }
    Ok(out)
}

} // verus!
