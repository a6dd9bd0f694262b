use vstd::prelude::*;

use crate::error::{KvError, STATUS_BAD_REQUEST, STATUS_OK};
use crate::pb::{
    error_response, ok_values, opt_value_view, pairs_view, strings_view, CommandRequest,
    CommandResponse, Kvpair, RequestData, ResponseModel, Value, ValueModel,
};
use crate::storage::{lists_table, lookup, Storage, StoreModel};

pub mod command_service;

pub use command_service::{
    exists_or_empty, exists_response, get_response, pairs_response, prior_value_response,
    value_or_empty, CommandService, QueryService,
};

verus! {

/// What a write reports as the prior value: that value, or the empty value.
pub open spec fn or_empty(o: Option<ValueModel>) -> ValueModel {
    match o {
        Some(v) => v,
        None => ValueModel::Empty,
    }
}

/// The answer to a request that names no operation.
pub open spec fn invalid_command_response() -> ResponseModel {
    ResponseModel {
        status: STATUS_BAD_REQUEST,
        message: "invalid command"@,
        values: Seq::empty(),
        pairs: Seq::empty(),
    }
}

/// Setting `pairs` into table `t` of `m` one after the other, left to right:
/// the contents after, and the prior value reported for each pair.
pub open spec fn hmset_run(
    m: StoreModel,
    t: Seq<char>,
    pairs: Seq<(Seq<char>, Option<ValueModel>)>,
) -> (StoreModel, Seq<ValueModel>)
    decreases pairs.len(),
{
    if pairs.len() == 0 {
        (m, Seq::empty())
    } else {
        let (m1, vs) = hmset_run(m, t, pairs.drop_last());
        let p = pairs.last();
        (m1.insert((t, p.0), or_empty(p.1)), vs.push(or_empty(lookup(m1, t, p.0))))
    }
}

/// Deleting `keys` from table `t` of `m` one after the other, left to right:
/// the contents after, and the prior value reported for each key.
pub open spec fn hmdel_run(m: StoreModel, t: Seq<char>, keys: Seq<Seq<char>>) -> (
    StoreModel,
    Seq<ValueModel>,
)
    decreases keys.len(),
{
    if keys.len() == 0 {
        (m, Seq::empty())
    } else {
        let (m1, vs) = hmdel_run(m, t, keys.drop_last());
        let k = keys.last();
        (m1.remove((t, k)), vs.push(or_empty(lookup(m1, t, k))))
    }
}

/// Executing `req` on a store that holds `m` leaves `m2` in it and answers `r`,
/// when no storage operation fails.
pub open spec fn executes(m: StoreModel, req: CommandRequest, m2: StoreModel, r: ResponseModel) -> bool {
    match req.request_data {
        None => m2 == m && r == invalid_command_response(),
        Some(RequestData::Hget(h)) => m2 == m && r == match lookup(m, h.table@, h.key@) {
            Some(v) => ok_values(seq![v]),
            None => error_response(KvError::NotFound(h.table, h.key)),
        },
        Some(RequestData::Hgetall(h)) => m2 == m && r.status == STATUS_OK && r.message.len() == 0
            && r.values.len() == 0 && lists_table(r.pairs, m, h.table@),
        Some(RequestData::Hmget(h)) => m2 == m && r == ok_values(
            strings_view(h.keys@).map_values(|k: Seq<char>| or_empty(lookup(m, h.table@, k))),
        ),
        Some(RequestData::Hset(h)) => match h.pair {
            None => m2 == m && r == ok_values(seq![ValueModel::Empty]),
            Some(p) => m2 == m.insert((h.table@, p.key@), or_empty(opt_value_view(p.value)))
                && r == ok_values(seq![or_empty(lookup(m, h.table@, p.key@))]),
        },
        Some(RequestData::Hmset(h)) => {
            let (m1, vs) = hmset_run(m, h.table@, pairs_view(h.pairs@));
            m2 == m1 && r == ok_values(vs)
        },
        Some(RequestData::Hdel(h)) => m2 == m.remove((h.table@, h.key@)) && r == ok_values(
            seq![or_empty(lookup(m, h.table@, h.key@))],
        ),
        Some(RequestData::Hmdel(h)) => {
            let (m1, vs) = hmdel_run(m, h.table@, strings_view(h.keys@));
            m2 == m1 && r == ok_values(vs)
        },
        Some(RequestData::Hexist(h)) => m2 == m && r == ok_values(
            seq![ValueModel::Bool(m.contains_key((h.table@, h.key@)))],
        ),
        Some(RequestData::Hmexist(h)) => m2 == m && r == ok_values(
            strings_view(h.keys@).map_values(|k: Seq<char>| ValueModel::Bool(m.contains_key((h.table@, k)))),
        ),
    }
}

/// The answer to HGET given what the store's `get` returned.
pub open spec fn get_answer(table: String, key: String, res: Result<Option<Value>, KvError>) -> ResponseModel {
    match res {
        Ok(Some(v)) => ok_values(seq![v@]),
        Ok(None) => error_response(KvError::NotFound(table, key)),
        Err(e) => error_response(e),
    }
}

/// The answer to HGETALL given what the store's `get_all` returned.
pub open spec fn pairs_answer(res: Result<Vec<Kvpair>, KvError>) -> ResponseModel {
    match res {
        Ok(ps) => ResponseModel {
            status: STATUS_OK,
            message: Seq::empty(),
            values: Seq::empty(),
            pairs: pairs_view(ps@),
        },
        Err(e) => error_response(e),
    }
}

/// The answer to HEXIST given what the store's `contains` returned.
pub open spec fn exists_answer(res: Result<bool, KvError>) -> ResponseModel {
    match res {
        Ok(b) => ok_values(seq![ValueModel::Bool(b)]),
        Err(e) => error_response(e),
    }
}

/// The answer to HSET or HDEL given what the store's `set` or `del` returned.
pub open spec fn prior_answer(res: Result<Option<Value>, KvError>) -> ResponseModel {
    match res {
        Ok(Some(v)) => ok_values(seq![v@]),
        Ok(None) => ok_values(seq![ValueModel::Empty]),
        Err(e) => error_response(e),
    }
}

/// HMSET on a store that may fail: `ms` are the contents before each set and
/// after the last. Each set either took effect and reports the prior value,
/// or failed, changed nothing and reports the empty value.
pub open spec fn hmset_steps(
    ms: Seq<StoreModel>,
    t: Seq<char>,
    pairs: Seq<(Seq<char>, Option<ValueModel>)>,
    vs: Seq<ValueModel>,
) -> bool {
    &&& ms.len() == pairs.len() + 1
    &&& vs.len() == pairs.len()
    &&& forall|i: int|
        0 <= i < pairs.len() ==> (ms[i + 1] == ms[i].insert((t, #[trigger] pairs[i].0), or_empty(pairs[i].1))
            && vs[i] == or_empty(lookup(ms[i], t, pairs[i].0))) || (ms[i + 1] == ms[i] && vs[i]
            == ValueModel::Empty)
}

/// HMDEL on a store that may fail, in the same way as `hmset_steps`.
pub open spec fn hmdel_steps(
    ms: Seq<StoreModel>,
    t: Seq<char>,
    keys: Seq<Seq<char>>,
    vs: Seq<ValueModel>,
) -> bool {
    &&& ms.len() == keys.len() + 1
    &&& vs.len() == keys.len()
    &&& forall|i: int|
        0 <= i < keys.len() ==> (ms[i + 1] == ms[i].remove((t, #[trigger] keys[i])) && vs[i] == or_empty(
            lookup(ms[i], t, keys[i]),
        )) || (ms[i + 1] == ms[i] && vs[i] == ValueModel::Empty)
}

/// Executing `req` on a store that holds `m`, and that may fail, leaves `m2` in
/// it and answers `r`: every answer is the one for some result of the storage
/// calls, each successful call being correct; a failed key in a multi-key
/// operation gives the empty value and leaves the answer's status at 200.
pub open spec fn answers(m: StoreModel, req: CommandRequest, m2: StoreModel, r: ResponseModel) -> bool {
    match req.request_data {
        None => m2 == m && r == invalid_command_response(),
        Some(RequestData::Hget(h)) => m2 == m && exists|res: Result<Option<Value>, KvError>|
            #[trigger] get_answer(h.table, h.key, res) == r && (res matches Ok(o) ==> opt_value_view(o)
                == lookup(m, h.table@, h.key@)),
        Some(RequestData::Hgetall(h)) => m2 == m && exists|res: Result<Vec<Kvpair>, KvError>|
            #[trigger] pairs_answer(res) == r && (res matches Ok(ps) ==> lists_table(
                pairs_view(ps@),
                m,
                h.table@,
            )),
        Some(RequestData::Hmget(h)) => m2 == m && r == ok_values(r.values) && r.values.len()
            == h.keys@.len() && forall|i: int|
            0 <= i < r.values.len() ==> #[trigger] r.values[i] == or_empty(
                lookup(m, h.table@, strings_view(h.keys@)[i]),
            ) || r.values[i] == ValueModel::Empty,
        Some(RequestData::Hset(h)) => match h.pair {
            None => m2 == m && r == ok_values(seq![ValueModel::Empty]),
            Some(p) => exists|res: Result<Option<Value>, KvError>|
                #[trigger] prior_answer(res) == r && match res {
                    Ok(o) => opt_value_view(o) == lookup(m, h.table@, p.key@) && m2 == m.insert(
                        (h.table@, p.key@),
                        or_empty(opt_value_view(p.value)),
                    ),
                    Err(_) => m2 == m,
                },
        },
        Some(RequestData::Hmset(h)) => r == ok_values(r.values) && exists|ms: Seq<StoreModel>|
            #[trigger] hmset_steps(ms, h.table@, pairs_view(h.pairs@), r.values) && ms[0] == m
                && ms.last() == m2,
        Some(RequestData::Hdel(h)) => exists|res: Result<Option<Value>, KvError>|
            #[trigger] prior_answer(res) == r && match res {
                Ok(o) => opt_value_view(o) == lookup(m, h.table@, h.key@) && m2 == m.remove(
                    (h.table@, h.key@),
                ),
                Err(_) => m2 == m,
            },
        Some(RequestData::Hmdel(h)) => r == ok_values(r.values) && exists|ms: Seq<StoreModel>|
            #[trigger] hmdel_steps(ms, h.table@, strings_view(h.keys@), r.values) && ms[0] == m
                && ms.last() == m2,
        Some(RequestData::Hexist(h)) => m2 == m && exists|res: Result<bool, KvError>|
            #[trigger] exists_answer(res) == r && (res matches Ok(b) ==> b == m.contains_key(
                (h.table@, h.key@),
            )),
        Some(RequestData::Hmexist(h)) => m2 == m && r == ok_values(r.values) && r.values.len()
            == h.keys@.len() && forall|i: int|
            0 <= i < r.values.len() ==> #[trigger] r.values[i] == ValueModel::Bool(
                m.contains_key((h.table@, strings_view(h.keys@)[i])),
            ) || r.values[i] == ValueModel::Empty,
    }
}

/// Route `cmd` to the storage operation it names and build the response.
pub fn dispatch<S: Storage>(cmd: CommandRequest, store: &mut S) -> (r: CommandResponse)
    requires
        old(store).inv(),
    ensures
        final(store).inv(),
        final(store).infallible() == old(store).infallible(),
        answers(old(store).model(), cmd, final(store).model(), r@),
        old(store).infallible() ==> executes(old(store).model(), cmd, final(store).model(), r@),
{
    match cmd.request_data {
        Some(RequestData::Hget(param)) => param.execute(store),
        Some(RequestData::Hgetall(param)) => param.execute(store),
        Some(RequestData::Hmget(param)) => param.execute(store),
        Some(RequestData::Hset(param)) => param.execute(store),
        Some(RequestData::Hmset(param)) => param.execute(store),
        Some(RequestData::Hdel(param)) => param.execute(store),
        Some(RequestData::Hmdel(param)) => param.execute(store),
        Some(RequestData::Hexist(param)) => param.execute(store),
        Some(RequestData::Hmexist(param)) => param.execute(store),
        None => {
            let r = CommandResponse::from_error(KvError::InvalidCommand(String::new()));
            proof {
                reveal_strlit("invalid command");
            }
            r
        },
    }
}

/// Whether `req` only reads: HGET, HGETALL, HMGET, HEXIST or HMEXIST.
pub open spec fn is_query(req: CommandRequest) -> bool {
    match req.request_data {
        Some(RequestData::Hget(_)) | Some(RequestData::Hgetall(_)) | Some(RequestData::Hmget(_))
        | Some(RequestData::Hexist(_)) | Some(RequestData::Hmexist(_)) => true,
        _ => false,
    }
}

/// Answer `cmd` from a shared view of the store when it only reads;
/// `None` when it writes or names no operation.
pub fn dispatch_read<S: Storage>(cmd: &CommandRequest, store: &S) -> (r: Option<CommandResponse>)
    requires
        store.inv(),
    ensures
        r is Some == is_query(*cmd),
        r matches Some(resp) ==> answers(store.model(), *cmd, store.model(), resp@),
        r matches Some(resp) ==> (store.infallible() ==> executes(
            store.model(),
            *cmd,
            store.model(),
            resp@,
        )),
{
    match &cmd.request_data {
        Some(RequestData::Hget(param)) => Some(param.query(store)),
        Some(RequestData::Hgetall(param)) => Some(param.query(store)),
        Some(RequestData::Hmget(param)) => Some(param.query(store)),
        Some(RequestData::Hexist(param)) => Some(param.query(store)),
        Some(RequestData::Hmexist(param)) => Some(param.query(store)),
        _ => None,
    }
}

/// The dispatcher bound to one store.
pub struct Service<Store> {
    store: Store,
}

impl<Store: Storage> Service<Store> {
    pub closed spec fn store_view(&self) -> Store {
        self.store
    }

    pub fn new(store: Store) -> (r: Self)
        ensures
            r.store_view() == store,
    {
        Service { store }
    }

    /// The store behind this service.
    pub fn store(&self) -> (r: &Store)
        ensures
            *r == self.store_view(),
    {
        &self.store
    }

    /// Answer a read-only request without changing the store; `None` for any other.
    pub fn query(&self, cmd: &CommandRequest) -> (r: Option<CommandResponse>)
        requires
            self.store_view().inv(),
        ensures
            r is Some == is_query(*cmd),
            r matches Some(resp) ==> answers(
                self.store_view().model(),
                *cmd,
                self.store_view().model(),
                resp@,
            ),
            r matches Some(resp) ==> (self.store_view().infallible() ==> executes(
                self.store_view().model(),
                *cmd,
                self.store_view().model(),
                resp@,
            )),
    {
        dispatch_read(cmd, &self.store)
    }

    /// Execute one request against the store.
    pub fn execute(&mut self, cmd: CommandRequest) -> (r: CommandResponse)
        requires
            old(self).store_view().inv(),
        ensures
            final(self).store_view().inv(),
            final(self).store_view().infallible() == old(self).store_view().infallible(),
            old(self).store_view().infallible() ==> executes(
                old(self).store_view().model(),
                cmd,
                final(self).store_view().model(),
                r@,
            ),
            answers(old(self).store_view().model(), cmd, final(self).store_view().model(), r@),
    {
        dispatch(cmd, &mut self.store)
    }
}

} // verus!
