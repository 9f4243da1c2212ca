use crate::deck::{
    carta_valida, cartas_validas, cuantas, lemma_cuantas_unica, puntos_carta, Carta, Palo,
};
use vstd::prelude::*;

verus! {

/// Suma de los puntos de la mano contando cada as como 11.
pub open spec fn suma_bruta(mano: Seq<Carta>) -> int
    decreases mano.len(),
{
    if mano.len() == 0 {
        0
    } else {
        suma_bruta(mano.drop_last()) + puntos_carta(mano.last())
    }
}

/// Numero de ases que hay en la mano.
pub open spec fn num_ases(mano: Seq<Carta>) -> int
    decreases mano.len(),
{
    if mano.len() == 0 {
        0
    } else {
        num_ases(mano.drop_last()) + if mano.last().valor == 1 {
            1int
        } else {
            0int
        }
    }
}

/// Rebaja el total de 10 en 10, un as cada vez, mientras pase de 21
/// y queden ases por rebajar.
pub open spec fn ajustar(total: int, ases: int) -> int
    decreases ases,
{
    if total > 21 && ases > 0 {
        ajustar(total - 10, ases - 1)
    } else {
        total
    }
}

/// Puntaje de una mano: la suma con ases a 11, rebajada solo lo
/// necesario para no pasar de 21, a lo sumo una rebaja por as.
pub open spec fn puntaje_mano(mano: Seq<Carta>) -> int {
    ajustar(suma_bruta(mano), num_ases(mano))
}

/// La suma bruta y el numero de ases nunca son negativos.
pub proof fn lemma_suma_no_negativa(mano: Seq<Carta>)
    ensures
        suma_bruta(mano) >= 0,
        0 <= num_ases(mano) <= mano.len(),
    decreases mano.len(),
{
    if mano.len() > 0 {
        lemma_suma_no_negativa(mano.drop_last());
    }
}

/// Alargar el prefijo una carta suma los puntos de esa carta.
pub proof fn lemma_prefijo(mano: Seq<Carta>, i: int)
    requires
        0 <= i < mano.len(),
    ensures
        suma_bruta(mano.take(i + 1)) == suma_bruta(mano.take(i)) + puntos_carta(mano[i]),
        num_ases(mano.take(i + 1)) == num_ases(mano.take(i)) + if mano[i].valor == 1 {
            1int
        } else {
            0int
        },
{
    assert(mano.take(i + 1).drop_last() =~= mano.take(i));
    assert(mano.take(i + 1).last() == mano[i]);
}

/// Robar una carta suma sus puntos y, si es un as, un as mas.
pub proof fn lemma_suma_push(mano: Seq<Carta>, c: Carta)
    ensures
        suma_bruta(mano.push(c)) == suma_bruta(mano) + puntos_carta(c),
        num_ases(mano.push(c)) == num_ases(mano) + if c.valor == 1 {
            1int
        } else {
            0int
        },
{
    assert(mano.push(c).drop_last() =~= mano);
    assert(mano.push(c).last() == c);
}

/// La suma de un prefijo no supera la suma de la mano entera.
pub proof fn lemma_suma_prefijo_acotada(mano: Seq<Carta>, i: int)
    requires
        0 <= i <= mano.len(),
    ensures
        suma_bruta(mano.take(i)) <= suma_bruta(mano),
    decreases mano.len() - i,
{
    if i == mano.len() {
        assert(mano.take(i) =~= mano);
    } else {
        lemma_prefijo(mano, i);
        assert(puntos_carta(mano[i]) >= 0);
        lemma_suma_prefijo_acotada(mano, i + 1);
    }
}

/// El ajuste nunca da un resultado negativo ni mayor que el total.
pub proof fn lemma_ajustar_cota(total: int, ases: int)
    requires
        total >= 0,
    ensures
        0 <= ajustar(total, ases) <= total,
    decreases ases,
{
    if total > 21 && ases > 0 {
        lemma_ajustar_cota(total - 10, ases - 1);
    }
}

/// El ajuste rebaja a lo sumo 10 puntos por as.
pub proof fn lemma_ajustar_piso(total: int, ases: int)
    requires
        ases >= 0,
    ensures
        ajustar(total, ases) >= total - 10 * ases,
    decreases ases,
{
    if total > 21 && ases > 0 {
        lemma_ajustar_piso(total - 10, ases - 1);
    }
}

/// El as del palo dado.
pub open spec fn as_de(p: Palo) -> Carta {
    Carta { valor: 1, palo: p }
}

/// Los ases de una mano son sus apariciones de los cuatro ases.
pub proof fn lemma_ases_por_palo(s: Seq<Carta>)
    ensures
        num_ases(s) == cuantas(s, as_de(Palo::Corazones)) + cuantas(s, as_de(Palo::Diamantes))
            + cuantas(s, as_de(Palo::Treboles)) + cuantas(s, as_de(Palo::Picas)),
    decreases s.len(),
{
    if s.len() > 0 {
        lemma_ases_por_palo(s.drop_last());
    }
}

/// Una mano sin cartas repetidas tiene a lo sumo cuatro ases.
pub proof fn lemma_ases_acotados(s: Seq<Carta>)
    requires
        s.no_duplicates(),
    ensures
        num_ases(s) <= 4,
{
    lemma_ases_por_palo(s);
    lemma_cuantas_unica(s, as_de(Palo::Corazones));
    lemma_cuantas_unica(s, as_de(Palo::Diamantes));
    lemma_cuantas_unica(s, as_de(Palo::Treboles));
    lemma_cuantas_unica(s, as_de(Palo::Picas));
}

/// Las tres partes de la mesa (dos manos y la baraja) heredan la
/// validez, la ausencia de repetidas y la cota de cuatro ases.
pub proof fn lemma_partes_mesa(a: Seq<Carta>, b: Seq<Carta>, c: Seq<Carta>)
    requires
        (a + b + c).no_duplicates(),
        cartas_validas(a + b + c),
    ensures
        cartas_validas(a),
        cartas_validas(b),
        cartas_validas(c),
        a.no_duplicates(),
        b.no_duplicates(),
        c.no_duplicates(),
        num_ases(a) <= 4,
        num_ases(b) <= 4,
        num_ases(c) <= 4,
{
    let t = a + b + c;
    assert forall|i: int| 0 <= i < a.len() implies a[i] == t[i] by {}
    assert forall|i: int| 0 <= i < b.len() implies b[i] == t[a.len() + i] by {}
    assert forall|i: int| 0 <= i < c.len() implies c[i] == t[a.len() + b.len() + i] by {}
    lemma_ases_acotados(a);
    lemma_ases_acotados(b);
    lemma_ases_acotados(c);
}

/// Una mano inicial de dos cartas validas nunca pasa de 21: a lo sumo
/// suma 22 (dos ases) y entonces un as se rebaja a 1.
pub proof fn lemma_mano_dos_cartas(m: Seq<Carta>)
    requires
        m.len() == 2,
        cartas_validas(m),
    ensures
        suma_bruta(m) <= 22,
        0 <= puntaje_mano(m) <= 21,
{
    let c0 = m[0];
    let c1 = m[1];
    let resto = m.drop_last();
    assert(m.last() == c1);
    assert(resto.last() == c0);
    assert(resto.drop_last().len() == 0);
    assert(suma_bruta(resto.drop_last()) == 0);
    assert(num_ases(resto.drop_last()) == 0);
    assert(suma_bruta(resto) == puntos_carta(c0));
    assert(num_ases(resto) == if c0.valor == 1 {
        1int
    } else {
        0int
    });
    assert(suma_bruta(m) == puntos_carta(c0) + puntos_carta(c1));
    assert(num_ases(m) == (if c0.valor == 1 {
        1int
    } else {
        0int
    }) + (if c1.valor == 1 {
        1int
    } else {
        0int
    }));
    assert(carta_valida(c0) && carta_valida(c1));
    assert(puntos_carta(c0) <= 11 && puntos_carta(c1) <= 11);
    lemma_suma_no_negativa(m);
    lemma_ajustar_cota(suma_bruta(m), num_ases(m));
    if suma_bruta(m) == 22 {
        assert(c0.valor == 1 && c1.valor == 1);
        assert(puntaje_mano(m) == ajustar(12, 1));
    }
}

/// Un jugador de la partida: el humano o la banca. Guarda su mano,
/// su puntaje en cache y cuantas partidas lleva ganadas.
pub struct Jugador {
    pub mano: Vec<Carta>,
    pub nombre: String,
    pub puntos: u8,
    pub partidas_ganadas: u32,
}

/// `despues` es `antes` con una victoria mas y todo lo demas igual.
pub open spec fn registra_victoria(antes: Jugador, despues: Jugador) -> bool {
    &&& despues.partidas_ganadas == antes.partidas_ganadas + 1
    &&& despues.mano@ == antes.mano@
    &&& despues.nombre@ == antes.nombre@
    &&& despues.puntos == antes.puntos
}

/// El contador de victorias nunca retrocede y dos registros seguidos
/// suman exactamente dos partidas ganadas.
pub proof fn lemma_victorias_acumulan(a: Jugador, b: Jugador, c: Jugador)
    requires
        registra_victoria(a, b),
        registra_victoria(b, c),
    ensures
        c.partidas_ganadas == a.partidas_ganadas + 2,
        b.partidas_ganadas > a.partidas_ganadas,
        c.partidas_ganadas > b.partidas_ganadas,
{
}

impl Jugador {
    /// Jugador recien sentado: sin cartas, sin puntos y sin victorias.
    pub fn nuevo() -> (r: Jugador)
        ensures
            r.mano@ == Seq::<Carta>::empty(),
            r.nombre@ == "Jugador"@,
            r.puntos == 0,
            r.partidas_ganadas == 0,
    {
        Jugador {
            mano: Vec::new(),
            nombre: "Jugador".to_string(),
            puntos: 0,
            partidas_ganadas: 0,
        }
    }

    /// Roba la carta de lo alto de la baraja y la pone en la mano.
    /// Con la baraja vacia no hace nada.
    pub fn tomar_carta(&mut self, baraja: &mut Vec<Carta>)
        ensures
            old(baraja)@.len() > 0 ==> {
                &&& final(self).mano@ == old(self).mano@.push(old(baraja)@.last())
                &&& final(baraja)@ == old(baraja)@.drop_last()
            },
            old(baraja)@.len() == 0 ==> {
                &&& final(self).mano@ == old(self).mano@
                &&& final(baraja)@ == old(baraja)@
            },
            final(self).nombre@ == old(self).nombre@,
            final(self).puntos == old(self).puntos,
            final(self).partidas_ganadas == old(self).partidas_ganadas,
    {
        if let Some(carta) = baraja.pop() {
            self.mano.push(carta);
        }
    }

    /// Puntaje de la mano actual: suma con ases a 11 y rebaja de 10
    /// por as mientras el total pase de 21.
    pub fn puntaje(&self) -> (r: u8)
        requires
            suma_bruta(self.mano@) <= 255,
        ensures
            r as int == puntaje_mano(self.mano@),
    {
        let mut total: u8 = 0;
        let mut ases: usize = 0;
        let n = self.mano.len();
        let mut i: usize = 0;
        while i < n
            invariant
                i <= n,
                n == self.mano@.len(),
                suma_bruta(self.mano@) <= 255,
                total as int == suma_bruta(self.mano@.take(i as int)),
                ases as int == num_ases(self.mano@.take(i as int)),
                ases <= i,
            decreases n - i,
        {
            let carta = self.mano[i];
            proof {
                lemma_prefijo(self.mano@, i as int);
                lemma_suma_prefijo_acotada(self.mano@, i as int + 1);
                lemma_suma_no_negativa(self.mano@.take(i as int + 1));
            }
            total = total + carta.puntos();
            if carta.valor == 1 {
                ases = ases + 1;
            }
            i = i + 1;
        }
        proof {
            assert(self.mano@.take(n as int) =~= self.mano@);
        }
        while total > 21 && ases > 0
            invariant
                ajustar(total as int, ases as int) == puntaje_mano(self.mano@),
            decreases ases,
        {
            total = total - 10;
            ases = ases - 1;
        }
        total
    }

    /// Apunta una partida ganada mas.
    pub fn partida_ganada(&mut self)
        requires
            old(self).partidas_ganadas < u32::MAX,
        ensures
            registra_victoria(*old(self), *final(self)),
    {
        self.partidas_ganadas = self.partidas_ganadas + 1;
    }
}

} // verus!
