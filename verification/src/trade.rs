//! The trade record accepted over the wire, and its marshalling into the
//! ordered positional parameters of the insert statement.

use vstd::prelude::*;

verus! {

/// One inbound trade. No field is validated here: malformed values are
/// passed through to the store, which may accept or reject them.
pub struct TradeRecord {
    pub symbol: String,
    pub price: String,
    pub quantity: String,
    pub trade_time: String,
    pub exchange: String,
}

impl TradeRecord {
    /// The positional parameters of the insert, in declared order:
    /// symbol, price, quantity, trade time, exchange. Each call builds its
    /// own vector from its own record alone, so no concurrent call can
    /// corrupt another's parameters.
    pub fn params(&self) -> (r: Vec<String>)
        ensures
            r@.len() == 5,
            r@[0]@ == self.symbol@,
            r@[1]@ == self.price@,
            r@[2]@ == self.quantity@,
            r@[3]@ == self.trade_time@,
            r@[4]@ == self.exchange@,
    {
        let mut r: Vec<String> = Vec::new();
        r.push(self.symbol.clone());
        r.push(self.price.clone());
        r.push(self.quantity.clone());
        r.push(self.trade_time.clone());
        r.push(self.exchange.clone());
        r
    }
}

} // verus!
