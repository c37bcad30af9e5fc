use vstd::prelude::*;

verus! {

/// Connection settings of the durable stores behind the account layer, and
/// the key material of the credential cipher.
pub struct StorageCfg {
    pub redis: String,
    pub postgres: String,
    pub key: String,
    pub iv: String,
}

/// The chat bot's API token.
pub struct BotCfg {
    pub token: String,
}

/// Address and port of the mail server that the scanner polls.
pub struct MailCfg {
    pub address: String,
    pub port: u16,
}

/// Where the broker listens: one port for the request/reply channel and one
/// for the fan-out channel.
pub struct BrokerCfg {
    pub address: String,
    pub pub_port: u16,
    pub rep_port: u16,
}

/// Everything the bot process needs at startup.
pub struct TelegramBotCfg {
    pub storage: StorageCfg,
    pub bot: BotCfg,
    pub broker: BrokerCfg,
}

/// Everything the broker process needs at startup.
pub struct BrokerSvcCfg {
    pub broker: BrokerCfg,
    pub storage: StorageCfg,
}

/// Everything the mail scanner needs at startup.
pub struct MailCheckerCfg {
    pub storage: StorageCfg,
    pub mail: MailCfg,
    pub broker: BrokerCfg,
}

/// Tunables of the delivery pipeline itself: the sweep period and the bounded
/// attempt counts of the retry wrapper around `publish` and `ack`.
pub struct DeliveryCfg {
    pub poll_interval_seconds: u64,
    pub publish_retry_attempts: u32,
    pub ack_retry_attempts: u32,
}

impl Default for DeliveryCfg {
    /// The sweep runs every ten seconds unless configured otherwise; transport
    /// calls are attempted up to three times.
    fn default() -> (c: Self)
        ensures
            c.poll_interval_seconds == 10,
            c.publish_retry_attempts == 3,
            c.ack_retry_attempts == 3,
    {
        DeliveryCfg { poll_interval_seconds: 10, publish_retry_attempts: 3, ack_retry_attempts: 3 }
    }
}

impl Clone for StorageCfg {
    fn clone(&self) -> (res: Self)
        ensures
            res == *self,
    {
        StorageCfg {
            redis: self.redis.clone(),
            postgres: self.postgres.clone(),
            key: self.key.clone(),
            iv: self.iv.clone(),
        }
    }
}

impl Clone for BotCfg {
    fn clone(&self) -> (res: Self)
        ensures
            res == *self,
    {
        BotCfg { token: self.token.clone() }
    }
}

impl Clone for MailCfg {
    fn clone(&self) -> (res: Self)
        ensures
            res == *self,
    {
        MailCfg { address: self.address.clone(), port: self.port }
    }
}

impl Clone for BrokerCfg {
    fn clone(&self) -> (res: Self)
        ensures
            res == *self,
    {
        BrokerCfg {
            address: self.address.clone(),
            pub_port: self.pub_port,
            rep_port: self.rep_port,
        }
    }
}

impl Clone for TelegramBotCfg {
    fn clone(&self) -> (res: Self)
        ensures
            res == *self,
    {
        TelegramBotCfg {
            storage: self.storage.clone(),
            bot: self.bot.clone(),
            broker: self.broker.clone(),
        }
    }
}

impl Clone for BrokerSvcCfg {
    fn clone(&self) -> (res: Self)
        ensures
            res == *self,
    {
        BrokerSvcCfg { broker: self.broker.clone(), storage: self.storage.clone() }
    }
}

impl Clone for MailCheckerCfg {
    fn clone(&self) -> (res: Self)
        ensures
            res == *self,
    {
        MailCheckerCfg {
            storage: self.storage.clone(),
            mail: self.mail.clone(),
            broker: self.broker.clone(),
        }
    }
}

} // verus!
