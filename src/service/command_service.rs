use vstd::prelude::*;

use crate::error::KvError;
use crate::pb::{
    ok_values, opt_value_view, pairs_view, strings_view, values_view, CommandRequest,
    CommandResponse, Hdel, Hexist, Hget, Hgetall, Hmdel, Hmexist, Hmget, Hmset, Hset, Kvpair,
    RequestData, Value, ValueModel,
};
use crate::service::{
    answers, executes, exists_answer, get_answer, hmdel_run, hmdel_steps, hmset_run, hmset_steps,
    or_empty, pairs_answer, prior_answer,
};
use crate::storage::{lookup, Storage, StoreModel};

verus! {

/// One operation, executed against a store.
pub trait CommandService: Sized {
    fn execute<S: Storage>(self, store: &mut S) -> (r: CommandResponse)
        requires
            old(store).inv(),
        ensures
            final(store).inv(),
            final(store).infallible() == old(store).infallible(),
    ;
}

/// A read-only operation, executed against a store it does not change.
pub trait QueryService {
    fn query<S: Storage>(&self, store: &S) -> (r: CommandResponse)
        requires
            store.inv(),
    ;
}

/// The response to HGET for the result of the store's `get`: the value, a
/// not-found error naming `table` and `key`, or the store's error.
pub fn get_response(table: &String, key: &String, res: Result<Option<Value>, KvError>) -> (r:
    CommandResponse)
    ensures
        r@ == get_answer(*table, *key, res),
{
    match res {
        Ok(Some(v)) => CommandResponse::from_value(v),
        Ok(None) => CommandResponse::from_error(KvError::NotFound(table.clone(), key.clone())),
        Err(e) => CommandResponse::from_error(e),
    }
}

/// The response to HGETALL for the result of the store's `get_all`.
pub fn pairs_response(res: Result<Vec<Kvpair>, KvError>) -> (r: CommandResponse)
    ensures
        r@ == pairs_answer(res),
{
    match res {
        Ok(pairs) => CommandResponse::from_pairs(pairs),
        Err(e) => CommandResponse::from_error(e),
    }
}

/// The response to HEXIST for the result of the store's `contains`.
pub fn exists_response(res: Result<bool, KvError>) -> (r: CommandResponse)
    ensures
        r@ == exists_answer(res),
{
    match res {
        Ok(b) => CommandResponse::from_value(Value::from(b)),
        Err(e) => CommandResponse::from_error(e),
    }
}

/// The response to a single write: the prior value (or the empty value), or the error.
pub fn prior_value_response(res: Result<Option<Value>, KvError>) -> (r: CommandResponse)
    ensures
        r@ == prior_answer(res),
{
    match res {
        Ok(Some(v)) => CommandResponse::from_value(v),
        Ok(None) => CommandResponse::from_value(Value::default()),
        Err(e) => CommandResponse::from_error(e),
    }
}

/// One slot of a multi-key answer: the value found, or the empty value on a miss or an error.
pub fn value_or_empty(res: Result<Option<Value>, KvError>) -> (r: Value)
    ensures
        r@ == match res {
            Ok(Some(v)) => v@,
            _ => ValueModel::Empty,
        },
{
    match res {
        Ok(Some(v)) => v,
        _ => Value::default(),
    }
}

/// One slot of a multi-key existence answer: the boolean, or the empty value on an error.
pub fn exists_or_empty(res: Result<bool, KvError>) -> (r: Value)
    ensures
        r@ == match res {
            Ok(b) => ValueModel::Bool(b),
            Err(_) => ValueModel::Empty,
        },
{
    match res {
        Ok(b) => Value::from(b),
        Err(_) => Value::default(),
    }
}

impl QueryService for Hget {
    fn query<S: Storage>(&self, store: &S) -> (r: CommandResponse)
        ensures
            answers(
                store.model(),
                CommandRequest { request_data: Some(RequestData::Hget(*self)) },
                store.model(),
                r@,
            ),
            store.infallible() ==> executes(
                store.model(),
                CommandRequest { request_data: Some(RequestData::Hget(*self)) },
                store.model(),
                r@,
            ),
    {
        let res = store.get(self.table.as_str(), self.key.as_str());
        let ghost g = res;
        let r = get_response(&self.table, &self.key, res);
        proof {
            assert(get_answer(self.table, self.key, g) == r@);
        }
        r
    }
}

impl QueryService for Hgetall {
    fn query<S: Storage>(&self, store: &S) -> (r: CommandResponse)
        ensures
            answers(
                store.model(),
                CommandRequest { request_data: Some(RequestData::Hgetall(*self)) },
                store.model(),
                r@,
            ),
            store.infallible() ==> executes(
                store.model(),
                CommandRequest { request_data: Some(RequestData::Hgetall(*self)) },
                store.model(),
                r@,
            ),
    {
        let res = store.get_all(self.table.as_str());
        let ghost g = res;
        let r = pairs_response(res);
        proof {
            assert(pairs_answer(g) == r@);
        }
        r
    }
}

impl QueryService for Hexist {
    fn query<S: Storage>(&self, store: &S) -> (r: CommandResponse)
        ensures
            answers(
                store.model(),
                CommandRequest { request_data: Some(RequestData::Hexist(*self)) },
                store.model(),
                r@,
            ),
            store.infallible() ==> executes(
                store.model(),
                CommandRequest { request_data: Some(RequestData::Hexist(*self)) },
                store.model(),
                r@,
            ),
    {
        let res = store.contains(self.table.as_str(), self.key.as_str());
        let ghost g = res;
        let r = exists_response(res);
        proof {
            assert(exists_answer(g) == r@);
        }
        r
    }
}

impl QueryService for Hmget {
    fn query<S: Storage>(&self, store: &S) -> (r: CommandResponse)
        ensures
            answers(
                store.model(),
                CommandRequest { request_data: Some(RequestData::Hmget(*self)) },
                store.model(),
                r@,
            ),
            store.infallible() ==> executes(
                store.model(),
                CommandRequest { request_data: Some(RequestData::Hmget(*self)) },
                store.model(),
                r@,
            ),
    {
        let ghost m = store.model();
        let ghost t = self.table@;
        let ghost keys = strings_view(self.keys@);
        let mut values: Vec<Value> = Vec::new();
        let mut i: usize = 0;
        while i < self.keys.len()
            invariant
                store.inv(),
                m == store.model(),
                t == self.table@,
                keys == strings_view(self.keys@),
                i <= self.keys@.len(),
                values@.len() == i,
                forall|j: int|
                    0 <= j < i ==> #[trigger] values_view(values@)[j] == or_empty(lookup(m, t, keys[j]))
                        || values_view(values@)[j] == ValueModel::Empty,
                store.infallible() ==> values_view(values@) =~= keys.take(i as int).map_values(
                    |k: Seq<char>| or_empty(lookup(m, t, k)),
                ),
            decreases self.keys@.len() - i,
        {
            let ghost prev = values@;
            let v = value_or_empty(store.get(self.table.as_str(), self.keys[i].as_str()));
            values.push(v);
            proof {
                assert(keys[i as int] == self.keys@[i as int]@);
                assert(values@ == prev.push(v));
                assert(values_view(values@) =~= values_view(prev).push(v@));
                assert(keys.take(i + 1) =~= keys.take(i as int).push(keys[i as int]));
            }
            i = i + 1;
        }
        proof {
            assert(keys.take(i as int) =~= keys);
        }
        CommandResponse::from_values(values)
    }
}

impl QueryService for Hmexist {
    fn query<S: Storage>(&self, store: &S) -> (r: CommandResponse)
        ensures
            answers(
                store.model(),
                CommandRequest { request_data: Some(RequestData::Hmexist(*self)) },
                store.model(),
                r@,
            ),
            store.infallible() ==> executes(
                store.model(),
                CommandRequest { request_data: Some(RequestData::Hmexist(*self)) },
                store.model(),
                r@,
            ),
    {
        let ghost m = store.model();
        let ghost t = self.table@;
        let ghost keys = strings_view(self.keys@);
        let mut values: Vec<Value> = Vec::new();
        let mut i: usize = 0;
        while i < self.keys.len()
            invariant
                store.inv(),
                m == store.model(),
                t == self.table@,
                keys == strings_view(self.keys@),
                i <= self.keys@.len(),
                values@.len() == i,
                forall|j: int|
                    0 <= j < i ==> #[trigger] values_view(values@)[j] == ValueModel::Bool(
                        m.contains_key((t, keys[j])),
                    ) || values_view(values@)[j] == ValueModel::Empty,
                store.infallible() ==> values_view(values@) =~= keys.take(i as int).map_values(
                    |k: Seq<char>| ValueModel::Bool(m.contains_key((t, k))),
                ),
            decreases self.keys@.len() - i,
        {
            let ghost prev = values@;
            let v = exists_or_empty(store.contains(self.table.as_str(), self.keys[i].as_str()));
            values.push(v);
            proof {
                assert(keys[i as int] == self.keys@[i as int]@);
                assert(values@ == prev.push(v));
                assert(values_view(values@) =~= values_view(prev).push(v@));
                assert(keys.take(i + 1) =~= keys.take(i as int).push(keys[i as int]));
            }
            i = i + 1;
        }
        proof {
            assert(keys.take(i as int) =~= keys);
        }
        CommandResponse::from_values(values)
    }
}

impl CommandService for Hget {
    fn execute<S: Storage>(self, store: &mut S) -> (r: CommandResponse)
        ensures
            answers(
                old(store).model(),
                CommandRequest { request_data: Some(RequestData::Hget(self)) },
                final(store).model(),
                r@,
            ),
            old(store).infallible() ==> executes(
                old(store).model(),
                CommandRequest { request_data: Some(RequestData::Hget(self)) },
                final(store).model(),
                r@,
            ),
    {
        self.query(store)
    }
}

impl CommandService for Hgetall {
    fn execute<S: Storage>(self, store: &mut S) -> (r: CommandResponse)
        ensures
            answers(
                old(store).model(),
                CommandRequest { request_data: Some(RequestData::Hgetall(self)) },
                final(store).model(),
                r@,
            ),
            old(store).infallible() ==> executes(
                old(store).model(),
                CommandRequest { request_data: Some(RequestData::Hgetall(self)) },
                final(store).model(),
                r@,
            ),
    {
        self.query(store)
    }
}

impl CommandService for Hexist {
    fn execute<S: Storage>(self, store: &mut S) -> (r: CommandResponse)
        ensures
            answers(
                old(store).model(),
                CommandRequest { request_data: Some(RequestData::Hexist(self)) },
                final(store).model(),
                r@,
            ),
            old(store).infallible() ==> executes(
                old(store).model(),
                CommandRequest { request_data: Some(RequestData::Hexist(self)) },
                final(store).model(),
                r@,
            ),
    {
        self.query(store)
    }
}

impl CommandService for Hmget {
    fn execute<S: Storage>(self, store: &mut S) -> (r: CommandResponse)
        ensures
            answers(
                old(store).model(),
                CommandRequest { request_data: Some(RequestData::Hmget(self)) },
                final(store).model(),
                r@,
            ),
            old(store).infallible() ==> executes(
                old(store).model(),
                CommandRequest { request_data: Some(RequestData::Hmget(self)) },
                final(store).model(),
                r@,
            ),
    {
        self.query(store)
    }
}

impl CommandService for Hmexist {
    fn execute<S: Storage>(self, store: &mut S) -> (r: CommandResponse)
        ensures
            answers(
                old(store).model(),
                CommandRequest { request_data: Some(RequestData::Hmexist(self)) },
                final(store).model(),
                r@,
            ),
            old(store).infallible() ==> executes(
                old(store).model(),
                CommandRequest { request_data: Some(RequestData::Hmexist(self)) },
                final(store).model(),
                r@,
            ),
    {
        self.query(store)
    }
}

impl CommandService for Hset {
    fn execute<S: Storage>(self, store: &mut S) -> (r: CommandResponse)
        ensures
            answers(
                old(store).model(),
                CommandRequest { request_data: Some(RequestData::Hset(self)) },
                final(store).model(),
                r@,
            ),
            old(store).infallible() ==> executes(
                old(store).model(),
                CommandRequest { request_data: Some(RequestData::Hset(self)) },
                final(store).model(),
                r@,
            ),
    {
        match self.pair {
            Some(p) => {
                let value = match p.value {
                    Some(v) => v,
                    None => Value::default(),
                };
                let res = store.set(self.table.as_str(), p.key, value);
                let ghost g = res;
                let r = prior_value_response(res);
                proof {
                    assert(prior_answer(g) == r@);
                }
                r
            },
            None => CommandResponse::from_value(Value::default()),
        }
    }
}

impl CommandService for Hdel {
    fn execute<S: Storage>(self, store: &mut S) -> (r: CommandResponse)
        ensures
            answers(
                old(store).model(),
                CommandRequest { request_data: Some(RequestData::Hdel(self)) },
                final(store).model(),
                r@,
            ),
            old(store).infallible() ==> executes(
                old(store).model(),
                CommandRequest { request_data: Some(RequestData::Hdel(self)) },
                final(store).model(),
                r@,
            ),
    {
        let res = store.del(self.table.as_str(), self.key.as_str());
        let ghost g = res;
        let r = prior_value_response(res);
        proof {
            assert(prior_answer(g) == r@);
        }
        r
    }
}

impl CommandService for Hmset {
    fn execute<S: Storage>(self, store: &mut S) -> (r: CommandResponse)
        ensures
            answers(
                old(store).model(),
                CommandRequest { request_data: Some(RequestData::Hmset(self)) },
                final(store).model(),
                r@,
            ),
            old(store).infallible() ==> executes(
                old(store).model(),
                CommandRequest { request_data: Some(RequestData::Hmset(self)) },
                final(store).model(),
                r@,
            ),
    {
        let ghost m = store.model();
        let ghost t = self.table@;
        let ghost pairs = pairs_view(self.pairs@);
        let ghost mut ms: Seq<StoreModel> = seq![m];
        let mut values: Vec<Value> = Vec::new();
        let mut i: usize = 0;
        while i < self.pairs.len()
            invariant
                store.inv(),
                store.infallible() == old(store).infallible(),
                m == old(store).model(),
                t == self.table@,
                pairs == pairs_view(self.pairs@),
                i <= self.pairs@.len(),
                values@.len() == i,
                ms[0] == m,
                ms.last() == store.model(),
                hmset_steps(ms, t, pairs.take(i as int), values_view(values@)),
                store.infallible() ==> (store.model(), values_view(values@)) == hmset_run(
                    m,
                    t,
                    pairs.take(i as int),
                ),
            decreases self.pairs@.len() - i,
        {
            let p = &self.pairs[i];
            let key = p.key.clone();
            let value = match &p.value {
                Some(v) => v.clone(),
                None => Value::default(),
            };
            let ghost before = store.model();
            let ghost prev_ms = ms;
            let ghost prev_vals = values@;
            let res = store.set(self.table.as_str(), key, value);
            let ghost g = res;
            let v = value_or_empty(res);
            values.push(v);
            proof {
                ms = ms.push(store.model());
                let pi = pairs.take(i as int);
                let pn = pairs.take(i + 1);
                assert(pn.drop_last() =~= pi);
                assert(values_view(values@) =~= values_view(prev_vals).push(v@));
                assert(pn[i as int] == pairs[i as int]);
                assert forall|j: int| 0 <= j < pn.len() implies (ms[j + 1] == ms[j].insert(
                    (t, #[trigger] pn[j].0),
                    or_empty(pn[j].1),
                ) && values_view(values@)[j] == or_empty(lookup(ms[j], t, pn[j].0))) || (ms[j + 1]
                    == ms[j] && values_view(values@)[j] == ValueModel::Empty) by {
                    if j < i {
                        assert(pn[j] == pi[j]);
                        assert(ms[j] == prev_ms[j] && ms[j + 1] == prev_ms[j + 1]);
                        assert(values_view(values@)[j] == values_view(prev_vals)[j]);
                    } else {
                        assert(ms[j] == before);
                    }
                }
            }
            i = i + 1;
        }
        proof {
            assert(pairs.take(i as int) =~= pairs);
            assert(hmset_steps(ms, t, pairs, values_view(values@)));
        }
        let ghost vs = values_view(values@);
        let r = CommandResponse::from_values(values);
        proof {
            assert(r@.values == vs);
            let req = CommandRequest { request_data: Some(RequestData::Hmset(self)) };
            let h = req.request_data->Some_0->Hmset_0;
            assert(hmset_steps(ms, h.table@, pairs_view(h.pairs@), r@.values));
            assert(answers(m, req, store.model(), r@));
        }
        r
    }
}

impl CommandService for Hmdel {
    fn execute<S: Storage>(self, store: &mut S) -> (r: CommandResponse)
        ensures
            answers(
                old(store).model(),
                CommandRequest { request_data: Some(RequestData::Hmdel(self)) },
                final(store).model(),
                r@,
            ),
            old(store).infallible() ==> executes(
                old(store).model(),
                CommandRequest { request_data: Some(RequestData::Hmdel(self)) },
                final(store).model(),
                r@,
            ),
    {
        let ghost m = store.model();
        let ghost t = self.table@;
        let ghost keys = strings_view(self.keys@);
        let ghost mut ms: Seq<StoreModel> = seq![m];
        let mut values: Vec<Value> = Vec::new();
        let mut i: usize = 0;
        while i < self.keys.len()
            invariant
                store.inv(),
                store.infallible() == old(store).infallible(),
                m == old(store).model(),
                t == self.table@,
                keys == strings_view(self.keys@),
                i <= self.keys@.len(),
                values@.len() == i,
                ms[0] == m,
                ms.last() == store.model(),
                hmdel_steps(ms, t, keys.take(i as int), values_view(values@)),
                store.infallible() ==> (store.model(), values_view(values@)) == hmdel_run(
                    m,
                    t,
                    keys.take(i as int),
                ),
            decreases self.keys@.len() - i,
        {
            let ghost before = store.model();
            let ghost prev_ms = ms;
            let ghost prev_vals = values@;
            let v = value_or_empty(store.del(self.table.as_str(), self.keys[i].as_str()));
            values.push(v);
            proof {
                ms = ms.push(store.model());
                let ki = keys.take(i as int);
                let kn = keys.take(i + 1);
                assert(kn.drop_last() =~= ki);
                assert(values_view(values@) =~= values_view(prev_vals).push(v@));
                assert(kn[i as int] == self.keys@[i as int]@);
                assert forall|j: int| 0 <= j < kn.len() implies (ms[j + 1] == ms[j].remove(
                    (t, #[trigger] kn[j]),
                ) && values_view(values@)[j] == or_empty(lookup(ms[j], t, kn[j]))) || (ms[j + 1]
                    == ms[j] && values_view(values@)[j] == ValueModel::Empty) by {
                    if j < i {
                        assert(kn[j] == ki[j]);
                        assert(ms[j] == prev_ms[j] && ms[j + 1] == prev_ms[j + 1]);
                        assert(values_view(values@)[j] == values_view(prev_vals)[j]);
                    } else {
                        assert(ms[j] == before);
                    }
                }
            }
            i = i + 1;
        }
        proof {
            assert(keys.take(i as int) =~= keys);
            assert(hmdel_steps(ms, t, keys, values_view(values@)));
        }
        let ghost vs = values_view(values@);
        let r = CommandResponse::from_values(values);
        proof {
            assert(r@.values == vs);
            let req = CommandRequest { request_data: Some(RequestData::Hmdel(self)) };
            let h = req.request_data->Some_0->Hmdel_0;
            assert(hmdel_steps(ms, h.table@, strings_view(h.keys@), r@.values));
            assert(answers(m, req, store.model(), r@));
        }
        r
    }
}

} // verus!
