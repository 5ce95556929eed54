//! The engines of one process: at most one maker and at most one taker.
//! Every request goes through the session, which finds the engine or says
//! that there is none.

use vstd::prelude::*;
use vstd::string::*;
use crate::MarketData;
use crate::chain_clients::{
    find_pool,
    lowercase,
    named_at,
    no_pool,
    pool_at,
    unnamed,
    ChainClients,
    ChainError,
    MerchantPool,
};
use crate::channel::{ChannelToken, CloseMessage, CustomerState};
use crate::error::ProtocolError;
use crate::maker::{
    EstablishTokens,
    Maker,
    MakerState,
    MerchantSetup,
    PaymentVerified,
    RevocationVerified,
};
use crate::message::{
    GeneratePaymentTokenRequest,
    GeneratePaymentTokenResponse,
    OpenChannelRequest,
    OpenChannelResponse,
    OrderRequest,
    PaymentRequest,
    PaymentResponse,
};
use crate::taker::{CustomerSetup, PaymentGenerated, Revocation, Taker, TakerState};

verus! {

/// The engines that a process holds.
#[derive(Clone, Debug)]
pub struct Session {
    pub maker: Option<MakerState>,
    pub taker: Option<TakerState>,
}

impl Session {
    /// A session without engines.
    pub fn new() -> (session: Session)
        ensures
            session.maker is None,
            session.taker is None,
    {
        Session { maker: None, taker: None }
    }

    /// Makes the maker of this session, once. Returns whether a maker was
    /// made: only then is its margin to be escrowed. A session that holds a
    /// maker keeps it as it is.
    pub fn init_maker_state(&mut self, initial_margin: i64, setup: MerchantSetup) -> (created: bool)
        ensures
            created == old(self).maker is None,
            !created ==> *final(self) == *old(self),
            created ==> (final(self).maker matches Some(maker) && MakerState::init_outcome(
                initial_margin,
                setup,
                maker,
            ) && maker.wf()),
            final(self).taker == old(self).taker,
    {
        if self.maker.is_some() {
            return false;
        }
        self.maker = Some(MakerState::init(initial_margin, setup));
        true
    }

    /// Makes the taker of this session from the pool that an order was
    /// matched to, once. Returns whether a taker was made: only then is the
    /// order to be escrowed and the channel to be opened. A session that holds
    /// a taker keeps it as it is.
    pub fn order(&mut self, req: &OrderRequest, pool: MerchantPool, setup: CustomerSetup) -> (created:
        Result<bool, ProtocolError>)
        ensures
            old(self).taker is Some ==> created == Ok::<bool, ProtocolError>(false) && *final(self)
                == *old(self),
            old(self).taker is None ==> {
                &&& final(self).maker == old(self).maker
                &&& match created {
                    Ok(made) => made && (final(self).taker matches Some(taker)
                        && TakerState::init_outcome(
                        req.initial_margin,
                        req.order_size,
                        pool.channel_state,
                        pool.channel_token,
                        setup,
                        Ok(taker),
                    ) && taker.wf()),
                    Err(e) => final(self).taker is None && TakerState::init_outcome(
                        req.initial_margin,
                        req.order_size,
                        pool.channel_state,
                        pool.channel_token,
                        setup,
                        Err(e),
                    ),
                }
            },
    {
        if self.taker.is_some() {
            return Ok(false);
        }
        let taker: TakerState = TakerState::init(
            req.initial_margin,
            req.order_size,
            pool.channel_state,
            pool.channel_token,
            setup,
        )?;
        self.taker = Some(taker);
        Ok(true)
    }

    /// Makes the maker of this session for a chain, where a client of that
    /// chain is configured: without one nothing is made. The channel material
    /// is generated only where a maker is made. Returns the place of the
    /// client and whether a maker was made: only then is its margin to be
    /// escrowed on the chain.
    pub fn init_maker<F: FnOnce() -> MerchantSetup>(
        &mut self,
        clients: &ChainClients,
        chain: &String,
        initial_margin: i64,
        generate: F,
    ) -> (res: Result<(usize, bool), ChainError>)
        requires
            generate.requires(()),
        ensures
            final(self).taker == old(self).taker,
            match res {
                Ok((place, created)) => {
                    &&& named_at(clients.names@, lowercase(chain@), place as int)
                    &&& created == old(self).maker is None
                    &&& !created ==> *final(self) == *old(self)
                    &&& created ==> exists|setup: MerchantSetup|
                        {
                            &&& generate.ensures((), setup)
                            &&& final(self).maker matches Some(maker)
                            &&& MakerState::init_outcome(initial_margin, setup, maker)
                            &&& maker.wf()
                        }
                },
                Err(e) => {
                    &&& e == ChainError::ChainNotAvailable
                    &&& unnamed(clients.names@, lowercase(chain@))
                    &&& *final(self) == *old(self)
                },
            },
    {
        let place: usize = clients.find_lowercase(chain)?;
        if self.maker.is_some() {
            return Ok((place, false));
        }
        let setup: MerchantSetup = generate();
        let created: bool = self.init_maker_state(initial_margin, setup);
        Ok((place, created))
    }

    /// Takes an order: matches it to the first pool that carries the maker's
    /// identifier and makes the taker of this session from that pool, once.
    /// Without such a pool no taker is made. The channel material is
    /// generated, on the pool's token, only where a taker is made. Returns
    /// whether a taker was made: only then is the order to be escrowed and
    /// the channel to be opened. A pool whose channel cannot be taken is a
    /// failure of the chain's data.
    pub fn take_order<F: FnOnce(&ChannelToken, i64, i64) -> CustomerSetup>(
        &mut self,
        req: &OrderRequest,
        pools: Vec<(String, MerchantPool)>,
        generate: F,
    ) -> (res: Result<bool, ChainError>)
        requires
            forall|token: &ChannelToken| generate.requires((token, req.initial_margin, req.order_size)),
        ensures
            final(self).maker == old(self).maker,
            no_pool(pools@, req.maker_order_id@) ==> res == Err::<bool, ChainError>(
                ChainError::MakerNotFound,
            ) && final(self).taker == old(self).taker,
            forall|place: int|
                pool_at(pools@, req.maker_order_id@, place) ==> if old(self).taker is Some {
                    res == Ok::<bool, ChainError>(false) && *final(self) == *old(self)
                } else if !pools@[place].1.takeable() {
                    &&& res matches Err(ChainError::ChainErr(detail))
                    &&& detail@ == "the channel of the pool cannot be taken"@
                    &&& *final(self) == *old(self)
                } else {
                    &&& res == Ok::<bool, ChainError>(true)
                    &&& exists|setup: CustomerSetup|
                        {
                            &&& generate.ensures(
                                (&pools@[place].1.channel_token, req.initial_margin, req.order_size),
                                setup,
                            )
                            &&& final(self).taker matches Some(taker)
                            &&& TakerState::init_outcome(
                                req.initial_margin,
                                req.order_size,
                                pools@[place].1.channel_state,
                                pools@[place].1.channel_token,
                                setup,
                                Ok(taker),
                            )
                            &&& taker.wf()
                        }
                },
    {
        let place: usize = find_pool(&pools, &req.maker_order_id)?;
        if self.taker.is_some() {
            return Ok(false);
        }
        let mut pools = pools;
        let pool: (String, MerchantPool) = pools.swap_remove(place);
        let pool: MerchantPool = pool.1;
        if pool.channel_token.pk_c.is_some() || pool.channel_state.channel_established {
            return Err(
                ChainError::ChainErr(String::from_str("the channel of the pool cannot be taken")),
            );
        }
        let setup: CustomerSetup = generate(&pool.channel_token, req.initial_margin, req.order_size);
        match self.order(req, pool, setup) {
            Ok(created) => Ok(created),
            Err(_) => Err(
                ChainError::ChainErr(String::from_str("the channel of the pool cannot be taken")),
            ),
        }
    }

    /// Hands a request to open a channel to the maker.
    pub fn open_channel_req(&mut self, req: OpenChannelRequest, issued: Option<EstablishTokens>) -> (res:
        Result<OpenChannelResponse, ProtocolError>)
        ensures
            final(self).taker == old(self).taker,
            match old(self).maker {
                None => res == Err::<OpenChannelResponse, ProtocolError>(
                    ProtocolError::NotInitialized,
                ) && final(self).maker is None,
                Some(maker) => final(self).maker matches Some(next) && maker.open_channel_outcome(
                    req,
                    issued,
                    next,
                    res,
                ),
            },
    {
        match &mut self.maker {
            Some(maker) => maker.recv_open_channel_req(req, issued),
            None => Err(ProtocolError::NotInitialized),
        }
    }

    /// Hands a payment to the maker.
    pub fn recv_payment_req(&mut self, req: PaymentRequest, verified: Option<PaymentVerified>) -> (res:
        Result<PaymentResponse, ProtocolError>)
        ensures
            final(self).taker == old(self).taker,
            match old(self).maker {
                None => res == Err::<PaymentResponse, ProtocolError>(ProtocolError::NotInitialized)
                    && final(self).maker is None,
                Some(maker) => final(self).maker matches Some(next) && maker.payment_outcome(
                    req,
                    verified,
                    next,
                    res,
                ),
            },
    {
        match &mut self.maker {
            Some(maker) => maker.recv_payment_req(req, verified),
            None => Err(ProtocolError::NotInitialized),
        }
    }

    /// Hands a revoke token to the maker.
    pub fn recv_generate_payment_token_req(
        &mut self,
        req: GeneratePaymentTokenRequest,
        verified: Option<RevocationVerified>,
    ) -> (res: Result<GeneratePaymentTokenResponse, ProtocolError>)
        ensures
            final(self).taker == old(self).taker,
            match old(self).maker {
                None => res == Err::<GeneratePaymentTokenResponse, ProtocolError>(
                    ProtocolError::NotInitialized,
                ) && final(self).maker is None,
                Some(maker) => final(self).maker matches Some(next) && maker.payment_token_outcome(
                    verified,
                    next,
                    res,
                ),
            },
    {
        match &mut self.maker {
            Some(maker) => maker.recv_generate_payment_token_req(req, verified),
            None => Err(ProtocolError::NotInitialized),
        }
    }

    /// Ends the establishment on the taker's side.
    pub fn recv_open_channel_res(
        &mut self,
        res: OpenChannelResponse,
        verified: Option<CustomerState>,
    ) -> (done: Result<(), ProtocolError>)
        ensures
            final(self).maker == old(self).maker,
            match old(self).taker {
                None => done == Err::<(), ProtocolError>(ProtocolError::NotInitialized) && final(self).taker is None,
                Some(taker) => final(self).taker matches Some(next) && taker.establishment_outcome(
                    verified,
                    next,
                    done,
                ),
            },
    {
        match &mut self.taker {
            Some(taker) => taker.recv_open_channel_res(res, verified),
            None => Err(ProtocolError::NotInitialized),
        }
    }

    /// The taker's payment for the current period.
    pub fn get_taker_payment_req(&mut self, generated: PaymentGenerated) -> (res: Result<
        PaymentRequest,
        ProtocolError,
    >)
        ensures
            final(self).maker == old(self).maker,
            match old(self).taker {
                None => res == Err::<PaymentRequest, ProtocolError>(ProtocolError::NotInitialized)
                    && final(self).taker is None,
                Some(taker) => final(self).taker matches Some(next) && taker.payment_sent_outcome(
                    generated,
                    next,
                    res,
                ),
            },
    {
        match &mut self.taker {
            Some(taker) => taker.send_payment_req(generated),
            None => Err(ProtocolError::NotInitialized),
        }
    }

    /// Accepts the maker's answer to the payment in flight and, where that
    /// went well, returns the request for the next pay token.
    pub fn update_taker_state_with_payment_res(
        &mut self,
        send_payment_res: PaymentResponse,
        revocation: Option<Revocation>,
    ) -> (res: Result<GeneratePaymentTokenRequest, ProtocolError>)
        ensures
            final(self).maker == old(self).maker,
            match old(self).taker {
                None => res == Err::<GeneratePaymentTokenRequest, ProtocolError>(
                    ProtocolError::NotInitialized,
                ) && final(self).taker is None,
                Some(taker) => final(self).taker matches Some(next) && match res {
                    Ok(request) => taker.payment_answer_outcome(revocation, next, Ok(()))
                        && next.payment_token_request(Ok(request)),
                    Err(e) => taker.payment_answer_outcome(revocation, next, Err(e)),
                },
            },
    {
        match &mut self.taker {
            Some(taker) => {
                taker.recv_payment_res(send_payment_res, revocation)?;
                taker.send_generate_payment_token_req()
            },
            None => Err(ProtocolError::NotInitialized),
        }
    }

    /// Ends a payment round on the taker's side.
    pub fn recv_generate_payment_token_res(
        &mut self,
        res: GeneratePaymentTokenResponse,
        verified: Option<CustomerState>,
    ) -> (done: Result<(), ProtocolError>)
        ensures
            final(self).maker == old(self).maker,
            match old(self).taker {
                None => done == Err::<(), ProtocolError>(ProtocolError::NotInitialized) && final(self).taker is None,
                Some(taker) => final(self).taker matches Some(next) && taker.payment_token_outcome(
                    verified,
                    next,
                    done,
                ),
            },
    {
        match &mut self.taker {
            Some(taker) => taker.recv_generate_payment_token_res(res, verified),
            None => Err(ProtocolError::NotInitialized),
        }
    }

    /// The taker's close message.
    pub fn get_close_message(&self, signed: CloseMessage) -> (res: Result<CloseMessage, ProtocolError>)
        ensures
            match self.taker {
                None => res == Err::<CloseMessage, ProtocolError>(ProtocolError::NotInitialized),
                Some(taker) => if taker.channel_state.channel_established {
                    res == Ok::<CloseMessage, ProtocolError>(signed)
                } else {
                    res == Err::<CloseMessage, ProtocolError>(ProtocolError::NotEstablished)
                },
            },
    {
        match &self.taker {
            Some(taker) => taker.get_close_message(signed),
            None => Err(ProtocolError::NotInitialized),
        }
    }

    /// Installs a new price snapshot in every engine of the session, so that
    /// maker and taker never see different prices.
    pub fn update_market_data(&mut self, snapshot: MarketData)
        ensures
            match old(self).maker {
                None => final(self).maker is None,
                Some(maker) => final(self).maker matches Some(next) && maker.market_updated(
                    snapshot,
                    next,
                ),
            },
            match old(self).taker {
                None => final(self).taker is None,
                Some(taker) => final(self).taker matches Some(next) && taker.market_updated(
                    snapshot,
                    next,
                ),
            },
    {
        match &mut self.taker {
            Some(taker) => taker.update_market_data(snapshot),
            None => {},
        }
        match &mut self.maker {
            Some(maker) => maker.update_market_data(snapshot),
            None => {},
        }
    }
}

} // verus!
