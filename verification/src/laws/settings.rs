//! Configuration and identity.
use vstd::prelude::*;

use crate::config::{
    bootstrap_timeout, configured, fault, given, matter_port, mqtt_port, ConfigError,
    StoragePathView, VarsView, DEFAULT_BOOTSTRAP_TIMEOUT_SECS,
    DEFAULT_MATTER_PORT, DEFAULT_MQTT_PORT, DEFAULT_TOPIC_PREFIX,
};
use crate::decimal::{
    decimal_digits, is_digit, lemma_digits_read_back, parsed_unsigned, unsigned_value, NumberFault,
};
use crate::domain::InverterInfoView;
use crate::identity::described;
use crate::laws::texts::{all_blank, is_blank, law_trimming_takes_the_blanks, lemma_blanks};
use crate::text::{is_white_space, trimmed, trimmed_back, trimmed_front};

verus! {

/// Variables in which those that hold white space only are unset.
pub open spec fn without_blanks(vars: VarsView) -> VarsView {
    VarsView {
        mqtt_host: given(vars.mqtt_host),
        mqtt_port: given(vars.mqtt_port),
        matter_port: given(vars.matter_port),
        mqtt_username: given(vars.mqtt_username),
        mqtt_password: given(vars.mqtt_password),
        topic_prefix: given(vars.topic_prefix),
        device_id: given(vars.device_id),
        storage_path: given(vars.storage_path),
        bootstrap_timeout: given(vars.bootstrap_timeout),
    }
}

/// A variable that holds white space only counts as unset.
pub proof fn law_blank_variables_count_as_unset(vars: VarsView, home_known: bool)
    ensures
        fault(without_blanks(vars), home_known) == fault(vars, home_known),
        configured(without_blanks(vars)) == configured(vars),
{
}

/// A host is all that has to be given, where there is a home directory: all
/// else has a default.
pub proof fn law_a_host_suffices(vars: VarsView, host: Seq<char>)
    requires
        trimmed(host).len() > 0,
        without_blanks(vars) == (VarsView {
            mqtt_host: Some(host),
            mqtt_port: None,
            matter_port: None,
            mqtt_username: None,
            mqtt_password: None,
            topic_prefix: None,
            device_id: None,
            storage_path: None,
            bootstrap_timeout: None,
        }),
    ensures
        fault(vars, true) is None,
        configured(vars).mqtt_host == host,
        configured(vars).mqtt_port == DEFAULT_MQTT_PORT,
        configured(vars).matter_port == DEFAULT_MATTER_PORT,
        configured(vars).mqtt_username is None,
        configured(vars).mqtt_password is None,
        configured(vars).topic_prefix == DEFAULT_TOPIC_PREFIX@,
        configured(vars).device_id is None,
        configured(vars).storage_path == StoragePathView::InHome,
        configured(vars).bootstrap_timeout == DEFAULT_BOOTSTRAP_TIMEOUT_SECS,
{
    law_blank_variables_count_as_unset(vars, true);
}

/// Every port that is written out in decimal is taken as that port.
pub proof fn law_ports_read_back(vars: VarsView, port: u16)
    requires
        fault(vars, true) is None,
        vars.mqtt_port == Some(decimal_digits(port as nat)),
    ensures
        configured(vars).mqtt_port == port,
{
    lemma_digits_read_back(port as nat);
    let digits = decimal_digits(port as nat);
    assert(is_digit(digits[0]));
    assert(is_digit(digits.last()));
    assert(trimmed_front(digits) == digits);
    assert(trimmed_back(digits) == digits);
}

/// The serial number that the device gives reads back as the inverter's.
pub proof fn law_serial_numbers_read_back(info: InverterInfoView, serial: u64)
    requires
        info.serial == Some(serial),
    ensures
        unsigned_value(described(Some(info)).serial_no, u64::MAX as nat) == Some(serial as nat),
{
    lemma_digits_read_back(serial as nat);
    assert(is_digit(decimal_digits(serial as nat)[0]));
}

/// Whether a variable is set to something: to text with a character that is no
/// blank.
pub open spec fn is_set(var: Option<Seq<char>>) -> bool {
    var matches Some(value) && !all_blank(value)
}

proof fn lemma_front_keeps(s: Seq<char>, i: int)
    requires
        0 <= i < s.len(),
        !is_white_space(s[i]),
    ensures
        trimmed_front(s).len() > 0,
        !is_white_space(trimmed_front(s)[0]),
    decreases s.len(),
{
    if is_white_space(s[0]) {
        assert(s.drop_first()[i - 1] == s[i]);
        lemma_front_keeps(s.drop_first(), i - 1);
    }
}

proof fn lemma_back_keeps(s: Seq<char>, i: int)
    requires
        0 <= i < s.len(),
        !is_white_space(s[i]),
    ensures
        trimmed_back(s).len() > 0,
    decreases s.len(),
{
    if is_white_space(s.last()) {
        assert(s.drop_last()[i] == s[i]);
        lemma_back_keeps(s.drop_last(), i);
    }
}

/// A variable that is set counts as it stands; any other counts as absent.
pub proof fn law_variables_count_as_they_stand(var: Option<Seq<char>>)
    ensures
        is_set(var) ==> given(var) == var,
        !is_set(var) ==> given(var) is None,
{
    lemma_blanks();
    if let Some(value) = var {
        if all_blank(value) {
            law_trimming_takes_the_blanks(value, Seq::empty(), Seq::empty());
            assert(value + Seq::<char>::empty() + Seq::<char>::empty() == value);
        } else {
            let i = choose|i: int| 0 <= i < value.len() && !is_blank(#[trigger] value[i]);
            lemma_front_keeps(value, i);
            lemma_back_keeps(trimmed_front(value), 0);
        }
    }
}

/// Each setting is its variable's where that is set, and otherwise its default.
pub proof fn law_settings_are_their_variables(vars: VarsView, home_known: bool)
    requires
        fault(vars, home_known) is None,
    ensures
        Some(configured(vars).mqtt_host) == vars.mqtt_host,
        configured(vars).mqtt_username == (if is_set(vars.mqtt_username) {
            vars.mqtt_username
        } else {
            None
        }),
        configured(vars).mqtt_password == (if is_set(vars.mqtt_password) {
            vars.mqtt_password
        } else {
            None
        }),
        configured(vars).device_id == (if is_set(vars.device_id) {
            vars.device_id
        } else {
            None
        }),
        is_set(vars.topic_prefix) ==> Some(configured(vars).topic_prefix) == vars.topic_prefix,
        !is_set(vars.topic_prefix) ==> configured(vars).topic_prefix == "pv-inverter"@,
        is_set(vars.storage_path) ==> (vars.storage_path matches Some(path) && configured(
            vars,
        ).storage_path == StoragePathView::Given(path)),
        !is_set(vars.storage_path) ==> configured(vars).storage_path == StoragePathView::InHome,
        !is_set(vars.mqtt_port) ==> configured(vars).mqtt_port == 1883,
        !is_set(vars.matter_port) ==> configured(vars).matter_port == 5540,
        !is_set(vars.bootstrap_timeout) ==> configured(vars).bootstrap_timeout == 30,
        is_set(vars.mqtt_port) ==> parsed_unsigned(vars.mqtt_port->0, 65_535) == Ok::<
            nat,
            NumberFault,
        >(configured(vars).mqtt_port as nat),
        is_set(vars.matter_port) ==> parsed_unsigned(vars.matter_port->0, 65_535) == Ok::<
            nat,
            NumberFault,
        >(configured(vars).matter_port as nat),
        is_set(vars.bootstrap_timeout) ==> parsed_unsigned(
            vars.bootstrap_timeout->0,
            18_446_744_073_709_551_615,
        ) == Ok::<nat, NumberFault>(configured(vars).bootstrap_timeout as nat),
{
    law_variables_count_as_they_stand(vars.mqtt_host);
    law_variables_count_as_they_stand(vars.mqtt_port);
    law_variables_count_as_they_stand(vars.matter_port);
    law_variables_count_as_they_stand(vars.mqtt_username);
    law_variables_count_as_they_stand(vars.mqtt_password);
    law_variables_count_as_they_stand(vars.topic_prefix);
    law_variables_count_as_they_stand(vars.device_id);
    law_variables_count_as_they_stand(vars.storage_path);
    law_variables_count_as_they_stand(vars.bootstrap_timeout);
}

/// Whether a variable is set to what is no number up to `max`, for this cause.
pub open spec fn is_faulty(var: Option<Seq<char>>, max: nat, cause: NumberFault) -> bool {
    is_set(var) && parsed_unsigned(var->0, max) == Err::<nat, NumberFault>(cause)
}

/// There is a fault exactly where the host is missing, a number is none, or fabrics
/// have no place; the first in the order host, ports, place, timeout is told, with
/// its cause.
pub proof fn law_the_first_fault_is_told(vars: VarsView, home_known: bool, cause: NumberFault)
    ensures
        ({
            let told = fault(vars, home_known);
            let ports = is_set(vars.mqtt_host) && forall|c: NumberFault|
                !#[trigger] is_faulty(vars.mqtt_port, 65_535, c);
            let place = ports && forall|c: NumberFault|
                !#[trigger] is_faulty(vars.matter_port, 65_535, c);
            let last = place && (is_set(vars.storage_path) || home_known);
            &&& told == Some(ConfigError::HostMissing) <==> !is_set(vars.mqtt_host)
            &&& told == Some(ConfigError::MqttPortInvalid(cause)) <==> is_set(vars.mqtt_host)
                && is_faulty(vars.mqtt_port, 65_535, cause)
            &&& told == Some(ConfigError::MatterPortInvalid(cause)) <==> ports && is_faulty(
                vars.matter_port,
                65_535,
                cause,
            )
            &&& told == Some(ConfigError::HomeUnknown) <==> place && !is_set(vars.storage_path)
                && !home_known
            &&& told == Some(ConfigError::TimeoutInvalid(cause)) <==> last && is_faulty(
                vars.bootstrap_timeout,
                18_446_744_073_709_551_615,
                cause,
            )
        }),
{
    law_variables_count_as_they_stand(vars.mqtt_host);
    law_variables_count_as_they_stand(vars.mqtt_port);
    law_variables_count_as_they_stand(vars.matter_port);
    law_variables_count_as_they_stand(vars.storage_path);
    law_variables_count_as_they_stand(vars.bootstrap_timeout);
    if let Err(c) = mqtt_port(vars) {
        assert(is_faulty(vars.mqtt_port, 65_535, c));
    }
    if let Err(c) = matter_port(vars) {
        assert(is_faulty(vars.matter_port, 65_535, c));
    }
}

/// Without one of these there is no fault.
pub proof fn law_no_other_fault(vars: VarsView, home_known: bool)
    requires
        is_set(vars.mqtt_host),
        forall|c: NumberFault| !#[trigger] is_faulty(vars.mqtt_port, 65_535, c),
        forall|c: NumberFault| !#[trigger] is_faulty(vars.matter_port, 65_535, c),
        is_set(vars.storage_path) || home_known,
        forall|c: NumberFault|
            !#[trigger] is_faulty(vars.bootstrap_timeout, 18_446_744_073_709_551_615, c),
    ensures
        fault(vars, home_known) is None,
{
    law_variables_count_as_they_stand(vars.mqtt_host);
    law_variables_count_as_they_stand(vars.mqtt_port);
    law_variables_count_as_they_stand(vars.matter_port);
    law_variables_count_as_they_stand(vars.storage_path);
    law_variables_count_as_they_stand(vars.bootstrap_timeout);
    if let Err(c) = mqtt_port(vars) {
        assert(is_faulty(vars.mqtt_port, 65_535, c));
    }
    if let Err(c) = matter_port(vars) {
        assert(is_faulty(vars.matter_port, 65_535, c));
    }
    if let Err(c) = bootstrap_timeout(vars) {
        assert(is_faulty(vars.bootstrap_timeout, 18_446_744_073_709_551_615, c));
    }
}

/// A cause goes with a faulty number, and with no other fault.
pub proof fn law_numbers_have_their_cause(cause: NumberFault)
    ensures
        ConfigError::MqttPortInvalid(cause).caused_by() == Some(cause),
        ConfigError::MatterPortInvalid(cause).caused_by() == Some(cause),
        ConfigError::TimeoutInvalid(cause).caused_by() == Some(cause),
        ConfigError::HostMissing.caused_by() is None,
        ConfigError::HomeUnknown.caused_by() is None,
{
}

/// The product is the inverter's model and the serial number its own, each where it
/// is known; otherwise a placeholder and nothing.
pub proof fn law_the_device_is_the_inverter(info: Option<InverterInfoView>, model: Seq<char>)
    ensures
        info matches Some(known) ==> known.device_model == Some(model) ==> described(
            info,
        ).product_name == model,
        (info matches Some(known) ==> known.device_model is None) ==> described(info).product_name
            == "PV Inverter"@,
        info matches Some(known) ==> (known.serial matches Some(serial) ==> described(
            info,
        ).serial_no == decimal_digits(serial as nat)),
        (info matches Some(known) ==> known.serial is None) ==> described(info).serial_no == ""@,
{
}

} // verus!
