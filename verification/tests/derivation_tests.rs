use kaspa_grpc_client::address::Address;
use kaspa_grpc_client::derivation::{AddressDerivationManagerTrait, DerivationError};

/// A toy derivation manager: the address at index `i` is the plain value `i`.
struct SequentialDerivationManager {
    cursor: u32,
    limit: u32,
}

impl SequentialDerivationManager {
    fn address_at(&self, index: u32) -> Result<Address, DerivationError> {
        if index < self.limit {
            Ok(Address { payload: index as u64 })
        } else {
            Err(DerivationError::IndexOutOfBounds)
        }
    }
}

impl AddressDerivationManagerTrait for SequentialDerivationManager {
    fn new_address(&mut self) -> Result<Address, DerivationError> {
        let next = self.cursor.checked_add(1).ok_or(DerivationError::IndexOutOfBounds)?;
        let address = self.address_at(next)?;
        self.cursor = next;
        Ok(address)
    }

    fn current_address(&self) -> Result<Address, DerivationError> {
        self.address_at(self.cursor)
    }

    fn index(&self) -> Result<u32, DerivationError> {
        Ok(self.cursor)
    }

    fn set_index(&mut self, index: u32) -> Result<(), DerivationError> {
        if index < self.limit {
            self.cursor = index;
            Ok(())
        } else {
            Err(DerivationError::IndexOutOfBounds)
        }
    }

    fn get_range(&self, start: u32, end: u32) -> Result<Vec<Address>, DerivationError> {
        let mut out = Vec::new();
        for index in start..end {
            out.push(self.address_at(index)?);
        }
        Ok(out)
    }
}

#[test]
fn derivation_manager_walks_indices() {
    let mut m = SequentialDerivationManager { cursor: 0, limit: 10 };
    assert_eq!(m.index(), Ok(0));
    assert_eq!(m.current_address(), Ok(Address { payload: 0 }));
    assert_eq!(m.new_address(), Ok(Address { payload: 1 }));
    assert_eq!(m.index(), Ok(1));
    m.set_index(5).unwrap();
    assert_eq!(m.current_address(), Ok(Address { payload: 5 }));
    assert_eq!(
        m.get_range(2, 5),
        Ok(vec![Address { payload: 2 }, Address { payload: 3 }, Address { payload: 4 }])
    );
    assert_eq!(m.set_index(10), Err(DerivationError::IndexOutOfBounds));
}
