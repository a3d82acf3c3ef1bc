//! The execute message: a full execute (parse, bind, define, execute and
//! fetch as the statement needs) or a re-execute of an open cursor, and the
//! parts of the server's answer that belong to it.

use vstd::prelude::*;
use vstd::utf8::encode_utf8;

use crate::bytes::zeros;
use crate::client::Client;
use crate::constants;
use crate::error::Error;
use crate::read_buffer::{is_read_failure, spec_read_bytes, spec_read_ub, ReadFailure};
use crate::response::{is_error_check, opt_text, spec_keyword_pairs, Response};
use crate::write_buffer::{bytes_with_length, call_header, next_seq_num, ub_bytes, WriteBuffer};

verus! {

/// What the execute message reads of a statement.
pub struct ExecuteStatement {
    pub sql: String,
    /// The length of the SQL text, as the statement reports it.
    pub sql_len: u32,
    pub cursor_id: u16,
    pub has_cursor: bool,
    pub has_binds: bool,
    pub num_binds: usize,
    pub num_out_metadata: usize,
    pub is_query: bool,
    pub is_plsql: bool,
    pub is_ddl: bool,
    pub requires_define: bool,
    pub no_prefetch: bool,
    pub binds_changed: bool,
    pub prefetch_rows: u32,
    pub fetch_array_size: u32,
}

pub struct ExecuteMessage {
    pub scroll_operation: bool,
    pub parse_only: bool,
    pub batch_errors: bool,
    pub array_dml_row_counts: bool,
    pub num_execs: u32,
    pub num_fetch_columns: u32,
    pub autocommit: bool,
    pub fetch_orientation: u32,
    pub fetch_pos: u32,
    pub statement: ExecuteStatement,
}

/// Whether the statement is parsed by this execute: it has no cursor yet or
/// it is DDL.
pub open spec fn needs_parse(s: ExecuteStatement) -> bool {
    !s.has_cursor || s.is_ddl
}

/// Whether binds are sent: the statement has some, needs no define and is
/// not only parsed.
pub open spec fn sends_binds(m: ExecuteMessage) -> bool {
    m.statement.has_binds && !m.statement.requires_define && !m.parse_only
}

/// The number of rows to fetch: for a query that is executed, the prefetch
/// count when the cursor is new or defines are needed, else the fetch array
/// size; zero otherwise.
pub open spec fn rows_to_fetch(m: ExecuteMessage) -> u32 {
    if m.statement.is_query && !m.parse_only {
        if !m.statement.has_cursor || m.statement.requires_define {
            m.statement.prefetch_rows
        } else {
            m.statement.fetch_array_size
        }
    } else {
        0
    }
}

/// The execution flags: implicit result sets are asked for when the
/// statement is executed.
pub open spec fn execution_flags(m: ExecuteMessage) -> u32 {
    if !m.statement.requires_define && !m.parse_only && m.statement.sql@.len() > 0 {
        constants::TTC_EXEC_FLAGS_IMPLICIT_RESULTSET
    } else {
        0
    }
}

/// The execute options, one after another as the statement and the message
/// ask for them.
pub open spec fn execution_options(m: ExecuteMessage) -> u32 {
    let s = m.statement;
    let o1: u32 = if s.requires_define {
        constants::TTC_EXEC_OPTION_DEFINE
    } else if !m.parse_only && s.sql@.len() > 0 && !m.scroll_operation {
        constants::TTC_EXEC_OPTION_EXECUTE
    } else {
        0
    };
    let o2: u32 = if needs_parse(s) { o1 | constants::TTC_EXEC_OPTION_PARSE } else { o1 };
    let o3: u32 = if s.is_query && m.parse_only {
        o2 | constants::TTC_EXEC_OPTION_DESCRIBE
    } else if s.is_query && rows_to_fetch(m) > 0 && !s.no_prefetch {
        o2 | constants::TTC_EXEC_OPTION_FETCH
    } else {
        o2
    };
    let o4: u32 = if !s.is_plsql && !m.parse_only {
        o3 | constants::TTC_EXEC_OPTION_NOT_PLSQL
    } else if s.is_plsql && sends_binds(m) {
        o3 | constants::TTC_EXEC_OPTION_PLSQL_BIND
    } else {
        o3
    };
    let o5: u32 = if sends_binds(m) { o4 | constants::TTC_EXEC_OPTION_BIND } else { o4 };
    let o6: u32 = if m.batch_errors { o5 | constants::TTC_EXEC_OPTION_BATCH_ERRORS } else { o5 };
    let o7: u32 = if m.array_dml_row_counts { o6 | constants::TTC_EXEC_FLAGS_DML_ROWCOUNTS } else { o6 };
    if m.autocommit && !m.parse_only { o7 | constants::TTC_EXEC_OPTION_COMMIT } else { o7 }
}

proof fn lemma_or_keeps_commit(a: u32, b: u32)
    requires
        b & 0x100u32 == 0,
    ensures
        (a | b) & 0x100u32 == a & 0x100u32,
{
    assert((a | b) & 0x100u32 == a & 0x100u32) by (bit_vector)
        requires
            b & 0x100u32 == 0,
    ;
}

/// A full execute asks the server to commit exactly when the message is
/// autocommitted and the statement is not only parsed: the COMMIT bit of
/// the execute options is set then, and clear otherwise.
pub proof fn autocommit_sets_commit_option(m: ExecuteMessage)
    ensures
        (execution_options(m) & constants::TTC_EXEC_OPTION_COMMIT != 0) == (m.autocommit && !m.parse_only),
{
    let s = m.statement;
    assert(constants::TTC_EXEC_OPTION_DEFINE & 0x100u32 == 0) by (bit_vector);
    assert(constants::TTC_EXEC_OPTION_EXECUTE & 0x100u32 == 0) by (bit_vector);
    assert(0u32 & 0x100u32 == 0) by (bit_vector);
    assert(constants::TTC_EXEC_OPTION_PARSE & 0x100u32 == 0) by (bit_vector);
    assert(constants::TTC_EXEC_OPTION_DESCRIBE & 0x100u32 == 0) by (bit_vector);
    assert(constants::TTC_EXEC_OPTION_FETCH & 0x100u32 == 0) by (bit_vector);
    assert(constants::TTC_EXEC_OPTION_NOT_PLSQL & 0x100u32 == 0) by (bit_vector);
    assert(constants::TTC_EXEC_OPTION_PLSQL_BIND & 0x100u32 == 0) by (bit_vector);
    assert(constants::TTC_EXEC_OPTION_BIND & 0x100u32 == 0) by (bit_vector);
    assert(constants::TTC_EXEC_OPTION_BATCH_ERRORS & 0x100u32 == 0) by (bit_vector);
    assert(constants::TTC_EXEC_FLAGS_DML_ROWCOUNTS & 0x100u32 == 0) by (bit_vector);
    let o1: u32 = if s.requires_define {
        constants::TTC_EXEC_OPTION_DEFINE
    } else if !m.parse_only && s.sql@.len() > 0 && !m.scroll_operation {
        constants::TTC_EXEC_OPTION_EXECUTE
    } else {
        0
    };
    let o2: u32 = if needs_parse(s) { o1 | constants::TTC_EXEC_OPTION_PARSE } else { o1 };
    if needs_parse(s) { lemma_or_keeps_commit(o1, constants::TTC_EXEC_OPTION_PARSE); }
    let o3: u32 = if s.is_query && m.parse_only {
        o2 | constants::TTC_EXEC_OPTION_DESCRIBE
    } else if s.is_query && rows_to_fetch(m) > 0 && !s.no_prefetch {
        o2 | constants::TTC_EXEC_OPTION_FETCH
    } else {
        o2
    };
    lemma_or_keeps_commit(o2, constants::TTC_EXEC_OPTION_DESCRIBE);
    lemma_or_keeps_commit(o2, constants::TTC_EXEC_OPTION_FETCH);
    let o4: u32 = if !s.is_plsql && !m.parse_only {
        o3 | constants::TTC_EXEC_OPTION_NOT_PLSQL
    } else if s.is_plsql && sends_binds(m) {
        o3 | constants::TTC_EXEC_OPTION_PLSQL_BIND
    } else {
        o3
    };
    lemma_or_keeps_commit(o3, constants::TTC_EXEC_OPTION_NOT_PLSQL);
    lemma_or_keeps_commit(o3, constants::TTC_EXEC_OPTION_PLSQL_BIND);
    let o5: u32 = if sends_binds(m) { o4 | constants::TTC_EXEC_OPTION_BIND } else { o4 };
    lemma_or_keeps_commit(o4, constants::TTC_EXEC_OPTION_BIND);
    let o6: u32 = if m.batch_errors { o5 | constants::TTC_EXEC_OPTION_BATCH_ERRORS } else { o5 };
    lemma_or_keeps_commit(o5, constants::TTC_EXEC_OPTION_BATCH_ERRORS);
    let o7: u32 = if m.array_dml_row_counts { o6 | constants::TTC_EXEC_FLAGS_DML_ROWCOUNTS } else { o6 };
    lemma_or_keeps_commit(o6, constants::TTC_EXEC_FLAGS_DML_ROWCOUNTS);
    assert(o7 & 0x100u32 == 0);
    assert((o7 | 0x100u32) & 0x100u32 != 0) by (bit_vector);
}

/// A pointer and a count, or a null pointer and a zero count.
pub open spec fn pointer_and_count(present: bool, count: u64) -> Seq<u8> {
    if present {
        seq![1u8] + ub_bytes(count)
    } else {
        seq![0u8] + ub_bytes(0)
    }
}

/// The start of a full execute: the function header, the options, the
/// cursor, the SQL length when it is parsed, the al8i4 array of thirteen
/// entries, the number of rows to fetch and the maximum long size.
pub open spec fn full_execute_head(m: ExecuteMessage, seq_num: u8, token: bool) -> Seq<u8> {
    call_header(constants::TTC_MSG_TYPE_FUNCTION, constants::TTC_RPC_EXECUTE, seq_num, token) + ub_bytes(
        execution_options(m) as u64,
    ) + ub_bytes(m.statement.cursor_id as u64) + pointer_and_count(
        needs_parse(m.statement),
        m.statement.sql_len as u64,
    ) + seq![1u8] + ub_bytes(13) + seq![0u8, 0u8] + ub_bytes(0) + ub_bytes(rows_to_fetch(m) as u64)
        + ub_bytes(0x7fffffff)
}

/// The defines of a full execute: their count when the statement needs
/// them, else a null pointer and a zero count.
pub open spec fn defines_part(m: ExecuteMessage) -> Seq<u8> {
    if m.statement.requires_define {
        seq![1u8] + ub_bytes(m.num_fetch_columns as u64)
    } else {
        seq![0u8, 0u8]
    }
}

/// The DML row counts part of a full execute.
pub open spec fn dml_row_counts_part(m: ExecuteMessage) -> Seq<u8> {
    if m.array_dml_row_counts {
        seq![1u8] + ub_bytes(m.num_execs as u64) + seq![1u8]
    } else {
        seq![0u8, 0u8, 0u8]
    }
}

/// The middle of a full execute: the binds, five null pointers, the defines,
/// the registration and object fields (all null or zero but for one
/// pointer), the DML row counts and, where the TTC field version allows
/// them, the SQL signature fields (five zeros) and the chunk id fields (two
/// zeros).
pub open spec fn full_execute_middle(m: ExecuteMessage, ttc_12_2: bool, ttc_12_2_ext1: bool) -> Seq<u8> {
    pointer_and_count(sends_binds(m), m.statement.num_binds as u64) + zeros(5) + defines_part(m) + seq![
        0u8,
        0u8,
        1u8,
        0u8,
        0u8,
        0u8,
        0u8,
        0u8,
    ] + dml_row_counts_part(m) + (if ttc_12_2 {
        zeros(5)
    } else {
        Seq::<u8>::empty()
    }) + (if ttc_12_2_ext1 {
        zeros(2)
    } else {
        Seq::<u8>::empty()
    })
}

/// The SQL part of a full execute: the SQL text and a parse count of one
/// when it is parsed, a zero otherwise.
pub open spec fn sql_part(m: ExecuteMessage) -> Seq<u8> {
    if needs_parse(m.statement) {
        bytes_with_length(encode_utf8(m.statement.sql@)) + ub_bytes(1)
    } else {
        seq![0u8]
    }
}

/// The execution count of the al8i4 array: the rows to fetch for a query on
/// an open cursor, zero for a query on a new one, the number of executions
/// otherwise.
pub open spec fn execution_count(m: ExecuteMessage) -> u32 {
    if m.statement.is_query {
        if m.statement.has_cursor {
            rows_to_fetch(m)
        } else {
            0
        }
    } else {
        m.num_execs
    }
}

/// The end of a full execute: the SQL part, then the values of the al8i4
/// array: the execution count, five zeros, whether the statement is a
/// query, a zero, the execution flags, the fetch orientation and position,
/// and a zero.
pub open spec fn full_execute_tail(m: ExecuteMessage) -> Seq<u8> {
    sql_part(m) + ub_bytes(execution_count(m) as u64) + zeros(5) + ub_bytes(
        if m.statement.is_query {
            1
        } else {
            0
        },
    ) + seq![0u8] + ub_bytes(execution_flags(m) as u64) + ub_bytes(m.fetch_orientation as u64) + ub_bytes(
        m.fetch_pos as u64,
    ) + seq![0u8]
}

/// Whether an execute is written in full rather than as a re-execute: the
/// cursor is new, prefetch is off, the binds changed, the statement is only
/// parsed, needs defines or is DDL.
pub open spec fn writes_full_execute(m: ExecuteMessage) -> bool {
    ||| !m.statement.has_cursor
    ||| m.statement.no_prefetch
    ||| m.statement.binds_changed
    ||| m.parse_only
    ||| m.statement.requires_define
    ||| m.statement.is_ddl
}

/// A re-execute of an open cursor: with a fetch for a query with rows to
/// prefetch, otherwise a plain re-execute of the number of executions.
pub open spec fn reexecute(m: ExecuteMessage, seq_num: u8, token: bool) -> Seq<u8> {
    let fetch = m.statement.is_query && m.statement.prefetch_rows > 0;
    let fn_type = if fetch { constants::TTC_RPC_REEXECUTE_AND_FETCH } else { constants::TTC_RPC_REEXECUTE };
    let iters: u32 = if fetch { m.statement.prefetch_rows } else { m.num_execs };
    let options_1: u32 = if fetch { constants::TTC_EXEC_OPTION_EXECUTE } else { 0 };
    call_header(constants::TTC_MSG_TYPE_FUNCTION, fn_type, seq_num, token) + ub_bytes(
        m.statement.cursor_id as u64,
    ) + ub_bytes(iters as u64) + ub_bytes(options_1 as u64) + ub_bytes(0)
}

impl ExecuteMessage {
    /// Creates an execute message for the statement, executed once per row
    /// of bind values.
    pub fn new(statement: ExecuteStatement, num_rows: usize) -> (m: ExecuteMessage)
        requires
            num_rows <= u32::MAX,
        ensures
            !m.parse_only,
            !m.scroll_operation,
            !m.batch_errors,
            !m.array_dml_row_counts,
            m.num_execs == num_rows,
            m.num_fetch_columns == 0,
            !m.autocommit,
            m.fetch_orientation == 0,
            m.fetch_pos == 0,
            m.statement == statement,
    {
        ExecuteMessage {
            parse_only: false,
            scroll_operation: false,
            batch_errors: false,
            array_dml_row_counts: false,
            num_execs: num_rows as u32,
            num_fetch_columns: 0,
            autocommit: false,
            fetch_orientation: 0,
            fetch_pos: 0,
            statement,
        }
    }
}

/// Writes a pointer and a count, or a null pointer and a zero count.
fn write_pointer_and_count(buf: &mut WriteBuffer, present: bool, count: u32)
    ensures
        final(buf).buf@ == old(buf).buf@ + pointer_and_count(present, count as u64),
        final(buf).seq_num == old(buf).seq_num,
{
    if present {
        buf.write_u8(1);
        buf.write_ub4(count);
    } else {
        buf.write_u8(0);
        buf.write_ub4(0);
    }
    assert(final(buf).buf@ =~= old(buf).buf@ + pointer_and_count(present, count as u64));
}

impl ExecuteMessage {
    /// The options, the execution flags and the number of rows to fetch of a
    /// full execute.
    fn options_and_flags(&self) -> (r: (u32, u32, u32))
        ensures
            r == (execution_options(*self), execution_flags(*self), rows_to_fetch(*self)),
            (r.0 & constants::TTC_EXEC_OPTION_COMMIT != 0) == (self.autocommit && !self.parse_only),
    {
        proof { autocommit_sets_commit_option(*self); }
        let mut options: u32 = 0;
        let mut exec_flags: u32 = 0;
        let mut num_iters: u32 = 0;
        let statement = &self.statement;
        let has_binds = statement.has_binds && !statement.requires_define && !self.parse_only;
        if statement.requires_define {
            options = options | constants::TTC_EXEC_OPTION_DEFINE;
        } else if !self.parse_only && !statement.sql.as_str().is_empty() {
            exec_flags = exec_flags | constants::TTC_EXEC_FLAGS_IMPLICIT_RESULTSET;
            if !self.scroll_operation {
                options = options | constants::TTC_EXEC_OPTION_EXECUTE;
            }
        }
        proof {
            assert(0u32 | constants::TTC_EXEC_OPTION_DEFINE == constants::TTC_EXEC_OPTION_DEFINE) by (bit_vector);
            assert(0u32 | constants::TTC_EXEC_OPTION_EXECUTE == constants::TTC_EXEC_OPTION_EXECUTE) by (bit_vector);
            assert(0u32 | constants::TTC_EXEC_FLAGS_IMPLICIT_RESULTSET
                == constants::TTC_EXEC_FLAGS_IMPLICIT_RESULTSET) by (bit_vector);
        }
        if !statement.has_cursor || statement.is_ddl {
            options = options | constants::TTC_EXEC_OPTION_PARSE;
        }
        if statement.is_query {
            if self.parse_only {
                options = options | constants::TTC_EXEC_OPTION_DESCRIBE;
            } else {
                if !statement.has_cursor || statement.requires_define {
                    num_iters = statement.prefetch_rows;
                } else {
                    num_iters = statement.fetch_array_size;
                }
                if num_iters > 0 && !statement.no_prefetch {
                    options = options | constants::TTC_EXEC_OPTION_FETCH;
                }
            }
        }
        if !statement.is_plsql && !self.parse_only {
            options = options | constants::TTC_EXEC_OPTION_NOT_PLSQL;
        } else if statement.is_plsql && has_binds {
            options = options | constants::TTC_EXEC_OPTION_PLSQL_BIND;
        }
        if has_binds {
            options = options | constants::TTC_EXEC_OPTION_BIND;
        }
        if self.batch_errors {
            options = options | constants::TTC_EXEC_OPTION_BATCH_ERRORS;
        }
        if self.array_dml_row_counts {
            options = options | constants::TTC_EXEC_FLAGS_DML_ROWCOUNTS;
        }
        if self.autocommit && !self.parse_only {
            options = options | constants::TTC_EXEC_OPTION_COMMIT;
        }
        (options, exec_flags, num_iters)
    }

    /// Writes the start of a full execute.
    #[verifier::spinoff_prover]
    fn write_full_execute_head(&self, client: &Client, buf: &mut WriteBuffer, options: u32, num_iters: u32)
        requires
            options == execution_options(*self),
            num_iters == rows_to_fetch(*self),
        ensures
            final(buf).seq_num == next_seq_num(old(buf).seq_num),
            final(buf).buf@ == old(buf).buf@ + full_execute_head(*self, final(buf).seq_num, client.uses_token()),
    {
        let token = client.supports_ttc_field_version(constants::TTC_FIELD_VERSION_23_1_EXT_1);
        buf.write_function_header(token, constants::TTC_RPC_EXECUTE);
        buf.write_ub4(options);
        buf.write_ub2(self.statement.cursor_id);
        write_pointer_and_count(
            buf,
            !self.statement.has_cursor || self.statement.is_ddl,
            self.statement.sql_len,
        );
        buf.write_u8(1);
        buf.write_ub4(13);
        buf.write_u8(0);
        buf.write_u8(0);
        buf.write_ub4(0);
        buf.write_ub4(num_iters);
        buf.write_ub4(0x7fffffff);
        assert(final(buf).buf@ =~= old(buf).buf@ + full_execute_head(
            *self,
            final(buf).seq_num,
            client.uses_token(),
        ));
    }

    /// Writes the binds and defines part of a full execute.
    #[verifier::spinoff_prover]
    fn write_binds_and_defines(&self, buf: &mut WriteBuffer)
        requires
            sends_binds(*self) ==> self.statement.num_binds <= u32::MAX,
        ensures
            final(buf).seq_num == old(buf).seq_num,
            final(buf).buf@ == old(buf).buf@ + pointer_and_count(
                sends_binds(*self),
                self.statement.num_binds as u64,
            ) + zeros(5) + defines_part(*self),
    {
        let has_binds = self.statement.has_binds && !self.statement.requires_define && !self.parse_only;
        let num_binds: u32 = if has_binds { self.statement.num_binds as u32 } else { 0 };
        write_pointer_and_count(buf, has_binds, num_binds);
        let ghost b1 = buf.buf@;
        buf.write_u8(0);
        buf.write_u8(0);
        buf.write_u8(0);
        buf.write_u8(0);
        buf.write_u8(0);
        assert(buf.buf@ =~= b1 + zeros(5));
        let ghost b2 = buf.buf@;
        if self.statement.requires_define {
            buf.write_u8(1);
            buf.write_ub4(self.num_fetch_columns);
        } else {
            buf.write_u8(0);
            buf.write_u8(0);
        }
        assert(buf.buf@ =~= b2 + defines_part(*self));
        assert(pointer_and_count(sends_binds(*self), self.statement.num_binds as u64) == pointer_and_count(
            has_binds,
            num_binds as u64,
        ));
    }

    /// Writes the registration, object and DML row count fields and the
    /// fields of later TTC field versions of a full execute.
    #[verifier::spinoff_prover]
    fn write_registration_and_row_counts(&self, client: &Client, buf: &mut WriteBuffer)
        ensures
            final(buf).seq_num == old(buf).seq_num,
            final(buf).buf@ == old(buf).buf@ + seq![0u8, 0u8, 1u8, 0u8, 0u8, 0u8, 0u8, 0u8]
                + dml_row_counts_part(*self) + (if client.field_version_at_least(
                constants::TTC_FIELD_VERSION_12_2,
            ) {
                zeros(5)
            } else {
                Seq::<u8>::empty()
            }) + (if client.field_version_at_least(constants::TTC_FIELD_VERSION_12_2_EXT1) {
                zeros(2)
            } else {
                Seq::<u8>::empty()
            }),
    {
        buf.write_ub4(0);
        buf.write_u8(0);
        buf.write_u8(1);
        buf.write_u8(0);
        buf.write_ub4(0);
        buf.write_u8(0);
        buf.write_ub4(0);
        buf.write_ub4(0);
        assert(buf.buf@ =~= old(buf).buf@ + seq![0u8, 0u8, 1u8, 0u8, 0u8, 0u8, 0u8, 0u8]);
        let ghost b4 = buf.buf@;
        if self.array_dml_row_counts {
            buf.write_u8(1);
            buf.write_ub4(self.num_execs);
            buf.write_u8(1);
        } else {
            buf.write_u8(0);
            buf.write_ub4(0);
            buf.write_u8(0);
        }
        assert(buf.buf@ =~= b4 + dml_row_counts_part(*self));
        let ghost b5 = buf.buf@;
        if client.supports_ttc_field_version(constants::TTC_FIELD_VERSION_12_2) {
            buf.write_u8(0);
            buf.write_ub4(0);
            buf.write_u8(0);
            buf.write_ub4(0);
            buf.write_u8(0);
            assert(buf.buf@ =~= b5 + zeros(5));
        } else {
            assert(buf.buf@ =~= b5 + Seq::<u8>::empty());
        }
        let ghost b6 = buf.buf@;
        if client.supports_ttc_field_version(constants::TTC_FIELD_VERSION_12_2_EXT1) {
            buf.write_u8(0);
            buf.write_ub4(0);
            assert(buf.buf@ =~= b6 + zeros(2));
        } else {
            assert(buf.buf@ =~= b6 + Seq::<u8>::empty());
        }
    }

    /// Writes the middle of a full execute.
    #[verifier::spinoff_prover]
    fn write_full_execute_middle(&self, client: &Client, buf: &mut WriteBuffer)
        requires
            sends_binds(*self) ==> self.statement.num_binds <= u32::MAX,
        ensures
            final(buf).seq_num == old(buf).seq_num,
            final(buf).buf@ == old(buf).buf@ + full_execute_middle(
                *self,
                client.field_version_at_least(constants::TTC_FIELD_VERSION_12_2),
                client.field_version_at_least(constants::TTC_FIELD_VERSION_12_2_EXT1),
            ),
    {
        self.write_binds_and_defines(buf);
        self.write_registration_and_row_counts(client, buf);
        assert(final(buf).buf@ =~= old(buf).buf@ + full_execute_middle(
            *self,
            client.field_version_at_least(constants::TTC_FIELD_VERSION_12_2),
            client.field_version_at_least(constants::TTC_FIELD_VERSION_12_2_EXT1),
        ));
    }

    /// Writes the al8i4 array of a full execute.
    #[verifier::spinoff_prover]
    fn write_al8i4(&self, buf: &mut WriteBuffer, exec_flags: u32, num_iters: u32)
        requires
            exec_flags == execution_flags(*self),
            num_iters == rows_to_fetch(*self),
        ensures
            final(buf).seq_num == old(buf).seq_num,
            final(buf).buf@ == old(buf).buf@ + ub_bytes(execution_count(*self) as u64) + zeros(5)
                + ub_bytes(if self.statement.is_query { 1 } else { 0 }) + seq![0u8] + ub_bytes(
                execution_flags(*self) as u64,
            ) + ub_bytes(self.fetch_orientation as u64) + ub_bytes(self.fetch_pos as u64) + seq![0u8],
    {
        let count: u32 = if self.statement.is_query {
            if self.statement.has_cursor {
                num_iters
            } else {
                0
            }
        } else {
            self.num_execs
        };
        buf.write_ub4(count);
        let ghost b1 = buf.buf@;
        buf.write_ub4(0);
        buf.write_ub4(0);
        buf.write_ub4(0);
        buf.write_ub4(0);
        buf.write_ub4(0);
        buf.write_ub4(if self.statement.is_query { 1 } else { 0 });
        buf.write_ub4(0);
        assert(buf.buf@ =~= b1 + zeros(5) + ub_bytes(if self.statement.is_query { 1 } else { 0 })
            + seq![0u8]);
        let ghost b2 = buf.buf@;
        buf.write_ub4(exec_flags);
        buf.write_ub4(self.fetch_orientation);
        buf.write_ub4(self.fetch_pos);
        buf.write_ub4(0);
        assert(buf.buf@ =~= b2 + ub_bytes(execution_flags(*self) as u64) + ub_bytes(
            self.fetch_orientation as u64,
        ) + ub_bytes(self.fetch_pos as u64) + seq![0u8]);
        assert(final(buf).buf@ =~= old(buf).buf@ + ub_bytes(execution_count(*self) as u64) + zeros(5)
            + ub_bytes(if self.statement.is_query { 1 } else { 0 }) + seq![0u8] + ub_bytes(
            execution_flags(*self) as u64,
        ) + ub_bytes(self.fetch_orientation as u64) + ub_bytes(self.fetch_pos as u64) + seq![0u8]);
    }

    /// Writes the end of a full execute.
    #[verifier::spinoff_prover]
    fn write_full_execute_tail(&self, buf: &mut WriteBuffer, exec_flags: u32, num_iters: u32)
        requires
            exec_flags == execution_flags(*self),
            num_iters == rows_to_fetch(*self),
        ensures
            final(buf).seq_num == old(buf).seq_num,
            final(buf).buf@ == old(buf).buf@ + full_execute_tail(*self),
    {
        let statement = &self.statement;
        if !statement.has_cursor || statement.is_ddl {
            buf.write_bytes_with_length(statement.sql.as_str().as_bytes());
            buf.write_ub4(1);
        } else {
            buf.write_ub4(0);
        }
        assert(buf.buf@ =~= old(buf).buf@ + sql_part(*self));
        self.write_al8i4(buf, exec_flags, num_iters);
        assert(final(buf).buf@ =~= old(buf).buf@ + full_execute_tail(*self));
    }

    /// Writes a full execute: the options and flags the statement and the
    /// message call for, the cursor and SQL text when it is parsed, the
    /// number of rows to fetch, the bind and define counts and the al8i4
    /// array.
    #[verifier::spinoff_prover]
    pub fn write_full_execute(&self, client: &Client, buf: &mut WriteBuffer)
        requires
            needs_parse(self.statement) ==> self.statement.sql@.len() > 0,
            sends_binds(*self) ==> self.statement.num_binds <= u32::MAX,
        ensures
            final(buf).seq_num == next_seq_num(old(buf).seq_num),
            final(buf).buf@ == old(buf).buf@ + full_execute_head(*self, final(buf).seq_num, client.uses_token())
                + full_execute_middle(
                *self,
                client.field_version_at_least(constants::TTC_FIELD_VERSION_12_2),
                client.field_version_at_least(constants::TTC_FIELD_VERSION_12_2_EXT1),
            ) + full_execute_tail(*self),
    {
        let (options, exec_flags, num_iters) = self.options_and_flags();
        self.write_full_execute_head(client, buf, options, num_iters);
        let ghost b1 = buf.buf@;
        self.write_full_execute_middle(client, buf);
        let ghost b2 = buf.buf@;
        self.write_full_execute_tail(buf, exec_flags, num_iters);
        assert(final(buf).buf@ =~= old(buf).buf@ + full_execute_head(
            *self,
            final(buf).seq_num,
            client.uses_token(),
        ) + full_execute_middle(
            *self,
            client.field_version_at_least(constants::TTC_FIELD_VERSION_12_2),
            client.field_version_at_least(constants::TTC_FIELD_VERSION_12_2_EXT1),
        ) + full_execute_tail(*self));
    }

    /// Writes a re-execute of the open cursor.
    #[verifier::spinoff_prover]
    pub fn write_reexecute(&self, client: &Client, buf: &mut WriteBuffer)
        ensures
            final(buf).seq_num == next_seq_num(old(buf).seq_num),
            final(buf).buf@ == old(buf).buf@ + reexecute(*self, final(buf).seq_num, client.uses_token()),
    {
        let fn_type: u8;
        let mut options_1: u32 = 0;
        let options_2: u32 = 0;
        let num_iters: u32;
        if self.statement.is_query && self.statement.prefetch_rows > 0 {
            fn_type = constants::TTC_RPC_REEXECUTE_AND_FETCH;
            num_iters = self.statement.prefetch_rows;
            options_1 = options_1 | constants::TTC_EXEC_OPTION_EXECUTE;
            assert(0u32 | constants::TTC_EXEC_OPTION_EXECUTE == constants::TTC_EXEC_OPTION_EXECUTE) by (bit_vector);
        } else {
            fn_type = constants::TTC_RPC_REEXECUTE;
            num_iters = self.num_execs;
        }
        let token = client.supports_ttc_field_version(constants::TTC_FIELD_VERSION_23_1_EXT_1);
        buf.write_function_header(token, fn_type);
        buf.write_ub2(self.statement.cursor_id);
        buf.write_ub4(num_iters);
        buf.write_ub4(options_1);
        buf.write_ub4(options_2);
        assert(final(buf).buf@ =~= old(buf).buf@ + reexecute(*self, final(buf).seq_num, client.uses_token()));
    }

    /// Writes the message: in full where the statement calls for it,
    /// otherwise as a re-execute.
    pub fn serialize(&self, client: &Client, buf: &mut WriteBuffer)
        requires
            needs_parse(self.statement) ==> self.statement.sql@.len() > 0,
            sends_binds(*self) ==> self.statement.num_binds <= u32::MAX,
        ensures
            final(buf).seq_num == next_seq_num(old(buf).seq_num),
            writes_full_execute(*self) ==> final(buf).buf@ == old(buf).buf@ + full_execute_head(
                *self,
                final(buf).seq_num,
                client.uses_token(),
            ) + full_execute_middle(
                *self,
                client.field_version_at_least(constants::TTC_FIELD_VERSION_12_2),
                client.field_version_at_least(constants::TTC_FIELD_VERSION_12_2_EXT1),
            ) + full_execute_tail(*self),
            !writes_full_execute(*self) ==> final(buf).buf@ == old(buf).buf@ + reexecute(
                *self,
                final(buf).seq_num,
                client.uses_token(),
            ),
    {
        if !self.statement.has_cursor || self.statement.no_prefetch || self.statement.binds_changed
            || self.parse_only || self.statement.requires_define || self.statement.is_ddl {
            self.write_full_execute(client, buf);
        } else {
            self.write_reexecute(client, buf);
        }
    }

    /// Returns whether the message must be sent again: after the defines
    /// were sent.
    pub fn resend_needed(&self) -> (r: bool)
        ensures
            r == self.statement.requires_define,
    {
        self.statement.requires_define
    }

    /// Prepares the response: the bit vector of duplicate columns is as
    /// long as the statement has columns.
    pub fn pre_deserialize(&self, resp: &mut Response)
        ensures
            *final(resp) == (Response { num_columns: self.statement.num_out_metadata, ..*old(resp) }),
    {
        resp.set_num_columns(self.statement.num_out_metadata);
    }

    /// Takes what the response tells of the statement: its cursor, and that
    /// its binds were sent; then checks for the end of a fetch.
    pub fn post_deserialize(&mut self, resp: &mut Response) -> (r: Result<(), Error>)
        ensures
            final(self).statement.cursor_id == old(resp).reported_cursor_id(),
            !final(self).statement.binds_changed,
            *final(self) == (ExecuteMessage {
                statement: ExecuteStatement {
                    cursor_id: final(self).statement.cursor_id,
                    binds_changed: false,
                    ..old(self).statement
                },
                ..*old(self)
            }),
            final(resp).end_of_fetch == (old(resp).end_of_fetch || (old(self).statement.is_query
                && old(resp).error_num() == constants::DB_ERR_NUM_NO_DATA_FOUND)),
            old(self).statement.is_query && old(resp).error_num() == constants::DB_ERR_NUM_NO_DATA_FOUND
                ==> r is Ok,
            !(old(self).statement.is_query && old(resp).error_num() == constants::DB_ERR_NUM_NO_DATA_FOUND)
                ==> is_error_check(old(resp).error_info, r),
    {
        self.statement.cursor_id = resp.get_cursor_id();
        self.statement.binds_changed = false;
        resp.check_for_end_of_fetch(self.statement.is_query)
    }
}

/// `n` variable-length integers of at most four bytes, skipped.
pub open spec fn skip_ub4s(d: Seq<u8>, p: int, n: nat) -> Result<int, ReadFailure>
    decreases n,
{
    if n == 0 {
        Ok(p)
    } else {
        match skip_ub4s(d, p, (n - 1) as nat) {
            Err(f) => Err(f),
            Ok(q) => match spec_read_ub(d, q, 4) {
                Err(f) => Err(f),
                Ok((_, r)) => Ok(r),
            },
        }
    }
}

/// Once skipping stops at the `k`-th value, skipping more stops there too.
proof fn lemma_skip_ub4s_stop(d: Seq<u8>, p: int, k: nat, n: nat)
    requires
        1 <= k <= n,
        skip_ub4s(d, p, (k - 1) as nat) is Ok,
        skip_ub4s(d, p, k) is Err,
    ensures
        skip_ub4s(d, p, n) == skip_ub4s(d, p, k),
    decreases n - k,
{
    if n > k {
        lemma_skip_ub4s_stop(d, p, k, (n - 1) as nat);
    }
}

/// A count of bytes, then (when not zero) that many bytes, skipped.
pub open spec fn skip_counted_bytes(d: Seq<u8>, p: int) -> Result<int, ReadFailure> {
    match spec_read_ub(d, p, 2) {
        Err(f) => Err(f),
        Ok((n, q)) => if n == 0 {
            Ok(q)
        } else {
            match spec_read_bytes(d, q, n) {
                Err(f) => Err(f),
                Ok((_, r)) => Ok(r),
            }
        },
    }
}

/// The return parameters of an execute: a count of 32-bit values (skipped),
/// the transaction bytes (skipped), the keyword/value pairs (which may set
/// the current schema and the edition) and the registration bytes
/// (skipped). The position after them, and the schema and edition set.
pub open spec fn execute_return_parameters(d: Seq<u8>, p: int) -> Result<
    (int, Option<Seq<char>>, Option<Seq<char>>),
    ReadFailure,
> {
    match spec_read_ub(d, p, 2) {
        Err(f) => Err(f),
        Ok((n, p1)) => match skip_ub4s(d, p1, n) {
            Err(f) => Err(f),
            Ok(p2) => match skip_counted_bytes(d, p2) {
                Err(f) => Err(f),
                Ok(p3) => match spec_read_ub(d, p3, 2) {
                    Err(f) => Err(f),
                    Ok((num_pairs, p4)) => match spec_keyword_pairs(d, p4, num_pairs) {
                        Err(f) => Err(f),
                        Ok((p5, schema, edition)) => match skip_counted_bytes(d, p5) {
                            Err(f) => Err(f),
                            Ok(p6) => Ok((p6, schema, edition)),
                        },
                    },
                },
            },
        },
    }
}

/// Skips a count of bytes and the bytes.
fn skip_counted(resp: &mut Response) -> (r: Result<(), Error>)
    ensures
        final(resp).buf.data() == old(resp).buf.data(),
        match skip_counted_bytes(old(resp).buf.data(), old(resp).buf.pos()) {
            Err(f) => r matches Err(e) && is_read_failure(e, f),
            Ok(q) => r is Ok && final(resp).buf.pos() == q,
        },
        final(resp).current_schema == old(resp).current_schema,
        final(resp).edition == old(resp).edition,
{
    let num_bytes = resp.read_ub2()?;
    if num_bytes > 0 {
        resp.advance(num_bytes as usize)?;
    }
    Ok(())
}

impl ExecuteMessage {
    /// Reads the return parameters of an execute.
    pub fn deserialize_return_parameters(&mut self, resp: &mut Response) -> (r: Result<(), Error>)
        requires
            !old(self).array_dml_row_counts,
        ensures
            *final(self) == *old(self),
            final(resp).buf.data() == old(resp).buf.data(),
            match execute_return_parameters(old(resp).buf.data(), old(resp).buf.pos()) {
                Err(f) => r matches Err(e) && is_read_failure(e, f),
                Ok((p, schema, edition)) => {
                    &&& r is Ok
                    &&& final(resp).buf.pos() == p
                    &&& opt_text(final(resp).current_schema) == Response::updated(
                        schema,
                        old(resp).current_schema,
                    )
                    &&& opt_text(final(resp).edition) == Response::updated(edition, old(resp).edition)
                },
            },
    {
        let ghost d = resp.buf.data();
        let ghost p0 = resp.buf.pos();
        let n = resp.read_ub2()?;
        let ghost p1 = resp.buf.pos();
        let mut i: u16 = 0;
        while i < n
            invariant
                d == old(resp).buf.data(),
                p0 == old(resp).buf.pos(),
                spec_read_ub(d, p0, 2) == Ok::<(nat, int), ReadFailure>((n as nat, p1)),
                resp.buf.data() == d,
                i <= n,
                skip_ub4s(d, p1, i as nat) == Ok::<int, ReadFailure>(resp.buf.pos()),
                resp.current_schema == old(resp).current_schema,
                resp.edition == old(resp).edition,
            decreases n - i,
        {
            match resp.read_ub4() {
                Ok(_) => {},
                Err(e) => {
                    proof { lemma_skip_ub4s_stop(d, p1, (i + 1) as nat, n as nat); }
                    return Err(e);
                },
            }
            i = i + 1;
        }
        skip_counted(resp)?;
        let num_pairs = resp.read_ub2()?;
        resp.process_keyword_value_pairs(num_pairs)?;
        skip_counted(resp)?;
        Ok(())
    }
}

} // verus!
